use vstd::prelude::*;
use crate::geometry::{
    cframe_from_pos_and_rot, grid_frame, grid_pos_ok, vec3, CFrame, Vector3, BRICK_HEIGHT,
    PLATE_HEIGHT, STUD,
};

verus! {

/// Largest brick dimension, in studs or brick heights, that a name may give:
/// the largest whose size in ticks (up to 720 per unit) stays well inside
/// the range of coordinates the pose algebra works with.
pub const MAX_DIMENSION: u32 = 0xFFFF_FFFF;

pub open spec fn is_digit(c: char) -> bool {
    '0' <= c <= '9'
}

/// End of the run of ASCII digits that starts at `i`.
pub open spec fn run_end(s: Seq<char>, i: int) -> int
    decreases s.len() - i,
{
    if 0 <= i < s.len() && is_digit(s[i]) {
        run_end(s, i + 1)
    } else {
        i
    }
}

/// The number that a string of decimal digits writes.
pub open spec fn digits_value(s: Seq<char>) -> nat
    decreases s.len(),
{
    if s.len() == 0 {
        0
    } else {
        digits_value(s.drop_last()) * 10 + (s.last() as nat - '0' as nat) as nat
    }
}

/// The number written by `s[i..j]`.
pub open spec fn number(s: Seq<char>, i: int, j: int) -> nat {
    digits_value(s.subrange(i, j))
}

/// Whether `w` occurs in `s` at `i`.
pub open spec fn has_at(s: Seq<char>, i: int, w: Seq<char>) -> bool {
    0 <= i && i + w.len() <= s.len() && s.subrange(i, i + w.len()) == w
}

pub open spec fn x_word() -> Seq<char> {
    seq!['x']
}

pub open spec fn flat_word() -> Seq<char> {
    seq!['F']
}

pub open spec fn base_word() -> Seq<char> {
    seq![' ', 'B', 'a', 's', 'e']
}

pub open spec fn round_word() -> Seq<char> {
    seq![' ', 'R', 'o', 'u', 'n', 'd']
}

pub open spec fn print_word() -> Seq<char> {
    seq![' ', 'P', 'r', 'i', 'n', 't']
}

/// The degree sign and " Ramp ".
pub open spec fn ramp_word() -> Seq<char> {
    seq!['\u{b0}', ' ', 'R', 'a', 'm', 'p', ' ']
}

pub open spec fn corner_word() -> Seq<char> {
    seq!['C', 'o', 'r', 'n', 'e', 'r']
}

/// Tall block: `<X>x<Z>x<Y>`, then optionally ` Print`.
pub open spec fn is_tall(s: Seq<char>) -> bool {
    let e1 = run_end(s, 0);
    let e2 = run_end(s, e1 + 1);
    let e3 = run_end(s, e2 + 1);
    &&& e1 > 0
    &&& has_at(s, e1, x_word())
    &&& e2 > e1 + 1
    &&& has_at(s, e2, x_word())
    &&& e3 > e2 + 1
    &&& (e3 == s.len() || (has_at(s, e3, print_word()) && e3 + 6 == s.len()))
}

/// What follows a regular block's size: optionally `F` or ` Base`, then
/// optionally ` Round`, then optionally ` Print`, and nothing else. Gives
/// which of the three were there.
pub open spec fn regular_tail(s: Seq<char>, i: int) -> Option<(bool, bool, bool)> {
    let (flat, j) = if has_at(s, i, flat_word()) {
        (true, i + 1)
    } else if has_at(s, i, base_word()) {
        (true, i + 5)
    } else {
        (false, i)
    };
    let (round, k) = if has_at(s, j, round_word()) {
        (true, j + 6)
    } else {
        (false, j)
    };
    let (print, m) = if has_at(s, k, print_word()) {
        (true, k + 6)
    } else {
        (false, k)
    };
    if m == s.len() {
        Some((flat, round, print))
    } else {
        None
    }
}

/// Regular block: `<X>x<Z>` and a regular tail.
pub open spec fn is_regular(s: Seq<char>) -> bool {
    let e1 = run_end(s, 0);
    let e2 = run_end(s, e1 + 1);
    &&& e1 > 0
    &&& has_at(s, e1, x_word())
    &&& e2 > e1 + 1
    &&& regular_tail(s, e2) is Some
}

/// Length of a leading `-`, which marks an inverted ramp.
pub open spec fn sign_len(s: Seq<char>) -> int {
    if s.len() > 0 && s[0] == '-' {
        1
    } else {
        0
    }
}

/// `[-]<angle>° Ramp `, the start shared by ramps and corner ramps.
pub open spec fn has_ramp_head(s: Seq<char>) -> bool {
    let e1 = run_end(s, sign_len(s));
    e1 > sign_len(s) && has_at(s, e1, ramp_word())
}

/// Where a ramp name's part after ` Ramp ` starts.
pub open spec fn ramp_body(s: Seq<char>) -> int {
    run_end(s, sign_len(s)) + 7
}

/// Ramp: `[-]<angle>° Ramp <X>x`, then optionally ` Print`.
pub open spec fn is_ramp(s: Seq<char>) -> bool {
    let i = ramp_body(s);
    let e = run_end(s, i);
    &&& has_ramp_head(s)
    &&& e > i
    &&& has_at(s, e, x_word())
    &&& (e + 1 == s.len() || (has_at(s, e + 1, print_word()) && e + 7 == s.len()))
}

/// Corner ramp: `[-]<angle>° Ramp Corner`.
pub open spec fn is_corner(s: Seq<char>) -> bool {
    &&& has_ramp_head(s)
    &&& has_at(s, ramp_body(s), corner_word())
    &&& ramp_body(s) + 6 == s.len()
}

/// The slope of a ramp.
#[derive(Clone, Copy, Debug, PartialEq, Eq, Structural)]
pub enum RampAngle {
    Angle25,
    Angle45,
    Angle72,
    Angle80,
}

pub open spec fn ramp_angle_of(s: Seq<char>) -> Option<RampAngle> {
    if s == seq!['2', '5'] {
        Some(RampAngle::Angle25)
    } else if s == seq!['4', '5'] {
        Some(RampAngle::Angle45)
    } else if s == seq!['7', '2'] {
        Some(RampAngle::Angle72)
    } else if s == seq!['8', '0'] {
        Some(RampAngle::Angle80)
    } else {
        None
    }
}

impl RampAngle {
    /// Height of a ramp of this slope, in brick heights.
    pub open spec fn height_multiple(self) -> int {
        match self {
            RampAngle::Angle25 | RampAngle::Angle45 => 1,
            RampAngle::Angle72 => 3,
            RampAngle::Angle80 => 5,
        }
    }

    /// Depth of a straight ramp of this slope, in studs.
    pub open spec fn ramp_depth(self) -> int {
        if self == RampAngle::Angle25 {
            2
        } else {
            1
        }
    }

    /// Width and depth of a corner ramp of this slope, in studs.
    pub open spec fn corner_plan(self) -> int {
        if self == RampAngle::Angle25 {
            3
        } else {
            2
        }
    }
}

/// The characters of `s`.
pub(crate) fn chars_of(s: &str) -> (r: Vec<char>)
    ensures
        r@ == s@,
{
    let n = s.unicode_len();
    let mut r: Vec<char> = Vec::new();
    let mut i: usize = 0;
    while i < n
        invariant
            n == s@.len(),
            i <= n,
            r@ == s@.subrange(0, i as int),
        decreases n - i,
    {
        r.push(s.get_char(i));
        i = i + 1;
        assert(r@ =~= s@.subrange(0, i as int));
    }
    assert(r@ =~= s@);
    r
}

/// End of the run of digits that starts at `i`.
fn digits_end(s: &Vec<char>, i: usize) -> (e: usize)
    requires
        i <= s@.len(),
    ensures
        e == run_end(s@, i as int),
        i <= e <= s@.len(),
        forall|k: int| i <= k < e ==> is_digit(s@[k]),
{
    let mut e = i;
    while e < s.len() && '0' <= s[e] && s[e] <= '9'
        invariant
            i <= e <= s@.len(),
            run_end(s@, i as int) == run_end(s@, e as int),
            forall|k: int| i <= k < e ==> is_digit(s@[k]),
        decreases s@.len() - e,
    {
        e = e + 1;
    }
    e
}

proof fn lemma_digits_value_step(s: Seq<char>, i: int, k: int)
    requires
        0 <= i <= k < s.len(),
    ensures
        number(s, i, k + 1) == number(s, i, k) * 10 + (s[k] as nat - '0' as nat) as nat,
{
    assert(s.subrange(i, k + 1).drop_last() =~= s.subrange(i, k));
}

proof fn lemma_number_grows(s: Seq<char>, i: int, k: int, e: int)
    requires
        0 <= i <= k <= e <= s.len(),
        forall|j: int| i <= j < e ==> is_digit(s[j]),
    ensures
        number(s, i, k) <= number(s, i, e),
    decreases e - k,
{
    if k < e {
        lemma_number_grows(s, i, k + 1, e);
        lemma_digits_value_step(s, i, k);
    }
}

/// The number written by the digits `s[i..e]`, or `None` when it is larger
/// than `MAX_DIMENSION`.
fn read_number(s: &Vec<char>, i: usize, e: usize) -> (r: Option<u32>)
    requires
        i <= e <= s@.len(),
        forall|k: int| i <= k < e ==> is_digit(s@[k]),
    ensures
        r matches Some(v) ==> v == number(s@, i as int, e as int),
        r is None <==> number(s@, i as int, e as int) > MAX_DIMENSION,
{
    let mut v: u32 = 0;
    let mut k = i;
    assert(s@.subrange(i as int, i as int) =~= Seq::<char>::empty());
    while k < e
        invariant
            i <= k <= e <= s@.len(),
            forall|j: int| i <= j < e ==> is_digit(s@[j]),
            v == number(s@, i as int, k as int),
            v <= MAX_DIMENSION,
        decreases e - k,
    {
        proof {
            lemma_digits_value_step(s@, i as int, k as int);
        }
        let d = (s[k] as u32) - ('0' as u32);
        if v > (MAX_DIMENSION - d) / 10 {
            proof {
                lemma_number_grows(s@, i as int, k as int + 1, e as int);
            }
            return None;
        }
        v = v * 10 + d;
        k = k + 1;
    }
    Some(v)
}

/// Whether `w` occurs in `s` at `i`.
pub(crate) fn has_word(s: &Vec<char>, i: usize, w: &Vec<char>) -> (r: bool)
    ensures
        r == has_at(s@, i as int, w@),
{
    if i > s.len() || w.len() > s.len() - i {
        return false;
    }
    let mut k: usize = 0;
    while k < w.len()
        invariant
            i + w@.len() <= s@.len() <= usize::MAX,
            k <= w@.len(),
            forall|j: int| 0 <= j < k ==> s@[i + j] == w@[j],
        decreases w@.len() - k,
    {
        if s[i + k] != w[k] {
            assert(s@.subrange(i as int, i + w@.len())[k as int] != w@[k as int]);
            return false;
        }
        k = k + 1;
    }
    assert(s@.subrange(i as int, i + w@.len()) =~= w@);
    true
}

fn x_word_exec() -> (r: Vec<char>)
    ensures
        r@ == x_word(),
{
    let r = vec!['x'];
    assert(r@ =~= x_word());
    r
}

fn flat_word_exec() -> (r: Vec<char>)
    ensures
        r@ == flat_word(),
{
    let r = vec!['F'];
    assert(r@ =~= flat_word());
    r
}

fn base_word_exec() -> (r: Vec<char>)
    ensures
        r@ == base_word(),
{
    let r = vec![' ', 'B', 'a', 's', 'e'];
    assert(r@ =~= base_word());
    r
}

fn round_word_exec() -> (r: Vec<char>)
    ensures
        r@ == round_word(),
{
    let r = vec![' ', 'R', 'o', 'u', 'n', 'd'];
    assert(r@ =~= round_word());
    r
}

fn print_word_exec() -> (r: Vec<char>)
    ensures
        r@ == print_word(),
{
    let r = vec![' ', 'P', 'r', 'i', 'n', 't'];
    assert(r@ =~= print_word());
    r
}

fn ramp_word_exec() -> (r: Vec<char>)
    ensures
        r@ == ramp_word(),
{
    let r = vec!['\u{b0}', ' ', 'R', 'a', 'm', 'p', ' '];
    assert(r@ =~= ramp_word());
    r
}

fn corner_word_exec() -> (r: Vec<char>)
    ensures
        r@ == corner_word(),
{
    let r = vec!['C', 'o', 'r', 'n', 'e', 'r'];
    assert(r@ =~= corner_word());
    r
}

fn regular_tail_exec(s: &Vec<char>, i: usize) -> (r: Option<(bool, bool, bool)>)
    requires
        i <= s@.len(),
    ensures
        r == regular_tail(s@, i as int),
{
    let n = s.len();
    let (flat, j) = if has_word(s, i, &flat_word_exec()) {
        (true, i + 1)
    } else if has_word(s, i, &base_word_exec()) {
        (true, i + 5)
    } else {
        (false, i)
    };
    let (round, k) = if has_word(s, j, &round_word_exec()) {
        (true, j + 6)
    } else {
        (false, j)
    };
    let (print, m) = if has_word(s, k, &print_word_exec()) {
        (true, k + 6)
    } else {
        (false, k)
    };
    if m == n {
        Some((flat, round, print))
    } else {
        None
    }
}

/// The slope written by `s[i..e]`.
fn ramp_angle_at(s: &Vec<char>, i: usize, e: usize) -> (r: Option<RampAngle>)
    requires
        i <= e <= s@.len(),
    ensures
        r == ramp_angle_of(s@.subrange(i as int, e as int)),
{
    let ghost t = s@.subrange(i as int, e as int);
    if e - i != 2 {
        assert(t.len() != 2);
        assert(t != seq!['2', '5'] && t != seq!['4', '5'] && t != seq!['7', '2'] && t != seq![
            '8',
            '0',
        ]);
        return None;
    }
    let a = s[i];
    let b = s[i + 1];
    assert(t[0] == a && t[1] == b);
    if a == '2' && b == '5' {
        assert(t =~= seq!['2', '5']);
        Some(RampAngle::Angle25)
    } else if a == '4' && b == '5' {
        assert(t =~= seq!['4', '5']);
        Some(RampAngle::Angle45)
    } else if a == '7' && b == '2' {
        assert(t =~= seq!['7', '2']);
        Some(RampAngle::Angle72)
    } else if a == '8' && b == '0' {
        assert(t =~= seq!['8', '0']);
        Some(RampAngle::Angle80)
    } else {
        assert(t != seq!['2', '5'] && t != seq!['4', '5'] && t != seq!['7', '2'] && t != seq![
            '8',
            '0',
        ]) by {
            assert(seq!['2', '5'][0] == '2' && seq!['2', '5'][1] == '5');
            assert(seq!['4', '5'][0] == '4' && seq!['4', '5'][1] == '5');
            assert(seq!['7', '2'][0] == '7' && seq!['7', '2'][1] == '2');
            assert(seq!['8', '0'][0] == '8' && seq!['8', '0'][1] == '0');
        }
        None
    }
}

/// The slope that a ramp name writes before its degree sign: one of "25",
/// "45", "72" and "80", or `None` for anything else.
pub fn parse_ramp_angle(s: &str) -> (r: Option<RampAngle>)
    ensures
        r == ramp_angle_of(s@),
{
    let v = chars_of(s);
    let r = ramp_angle_at(&v, 0, v.len());
    assert(v@.subrange(0, v@.len() as int) =~= s@);
    r
}

proof fn lemma_first_char(s: Seq<char>, i: int, w: Seq<char>)
    requires
        has_at(s, i, w),
        w.len() > 0,
    ensures
        s[i] == w[0],
{
    assert(s.subrange(i, i + w.len())[0] == s[i]);
}

/// No name matches two of the four shapes, so the order in which they are
/// tried never decides what a name is.
pub proof fn lemma_grammars_disjoint(s: Seq<char>)
    ensures
        !(is_tall(s) && is_regular(s)),
        !(is_tall(s) && is_ramp(s)),
        !(is_tall(s) && is_corner(s)),
        !(is_regular(s) && is_ramp(s)),
        !(is_regular(s) && is_corner(s)),
        !(is_ramp(s) && is_corner(s)),
{
    let e1 = run_end(s, 0);
    let e2 = run_end(s, e1 + 1);
    if is_tall(s) || is_regular(s) {
        lemma_first_char(s, e1, x_word());
        assert(is_digit(s[0]));
        assert(sign_len(s) == 0);
        if has_ramp_head(s) {
            lemma_first_char(s, e1, ramp_word());
        }
    }
    if is_tall(s) && regular_tail(s, e2) is Some {
        lemma_first_char(s, e2, x_word());
        if has_at(s, e2, flat_word()) {
            lemma_first_char(s, e2, flat_word());
        }
        if has_at(s, e2, base_word()) {
            lemma_first_char(s, e2, base_word());
        }
        if has_at(s, e2, round_word()) {
            lemma_first_char(s, e2, round_word());
        }
        if has_at(s, e2, print_word()) {
            lemma_first_char(s, e2, print_word());
        }
    }
    if is_ramp(s) && is_corner(s) {
        let i = ramp_body(s);
        lemma_first_char(s, i, corner_word());
        assert(is_digit(s[i]));
    }
}

/// One brick as read from a save: its name, its grid position (in 1/600 of
/// a grid unit), its facing, its colour's index in the palette, and whether
/// it is drawn and whether things collide with it.
pub struct BrickRecord {
    pub ui_name: String,
    pub position: (i64, i64, i64),
    pub angle: u8,
    pub color_index: u8,
    pub rendering: bool,
    pub collision: bool,
}

impl BrickRecord {
    /// A facing of 0 to 3, a colour in the 64-entry palette, and a position
    /// within the grid's range.
    pub open spec fn wf(&self) -> bool {
        self.angle < 4 && self.color_index < 64 && grid_pos_ok(self.position)
    }
}

/// How a block's faces are drawn.
#[derive(Clone, Copy, Debug, PartialEq, Eq, Structural)]
pub enum RegularBrickMesh {
    Block,
    Round,
}

/// What a brick's name says it is, with its size in ticks and its poses.
#[derive(Clone, Copy, Debug, PartialEq, Eq, Structural)]
pub enum BrickType {
    Regular { cframe: CFrame, size: Vector3, mesh: RegularBrickMesh },
    Ramp { cframe: CFrame, size: Vector3, inverted: bool },
    RampCorner {
        corner_cframe: CFrame,
        wedge_cframe_1: CFrame,
        wedge_cframe_2: CFrame,
        size: Vector3,
        inverted: bool,
    },
    Unknown,
}

/// A name that matched one of the shapes but cannot be built.
#[derive(Clone, Copy, Debug, PartialEq, Eq, Structural)]
pub enum NameError {
    /// The ramp's slope is not one of 25, 45, 72 and 80 degrees.
    UnknownRampAngle,
    /// A dimension is larger than `MAX_DIMENSION`.
    DimensionTooLarge,
}

pub open spec fn bump(b: bool) -> int {
    if b {
        1
    } else {
        0
    }
}

pub open spec fn tall_type_of(s: Seq<char>, pos: (i64, i64, i64), facing: int) -> Result<
    BrickType,
    NameError,
> {
    let e1 = run_end(s, 0);
    let e2 = run_end(s, e1 + 1);
    let e3 = run_end(s, e2 + 1);
    let x = number(s, 0, e1);
    let z = number(s, e1 + 1, e2);
    let y = number(s, e2 + 1, e3);
    if x > MAX_DIMENSION || z > MAX_DIMENSION || y > MAX_DIMENSION {
        Err(NameError::DimensionTooLarge)
    } else {
        Ok(
            BrickType::Regular {
                cframe: grid_frame(pos, (facing + bump(e3 < s.len())) % 4, false),
                size: vec3(x * STUD, y * BRICK_HEIGHT, z * STUD),
                mesh: RegularBrickMesh::Block,
            },
        )
    }
}

pub open spec fn regular_type_of(s: Seq<char>, pos: (i64, i64, i64), facing: int) -> Result<
    BrickType,
    NameError,
> {
    let e1 = run_end(s, 0);
    let e2 = run_end(s, e1 + 1);
    let x = number(s, 0, e1);
    let z = number(s, e1 + 1, e2);
    let (flat, round, print) = regular_tail(s, e2)->Some_0;
    if x > MAX_DIMENSION || z > MAX_DIMENSION {
        Err(NameError::DimensionTooLarge)
    } else {
        Ok(
            BrickType::Regular {
                cframe: grid_frame(pos, (facing + bump(print)) % 4, false),
                size: vec3(
                    x * STUD,
                    if flat {
                        PLATE_HEIGHT as int
                    } else {
                        BRICK_HEIGHT as int
                    },
                    z * STUD,
                ),
                mesh: if round {
                    RegularBrickMesh::Round
                } else {
                    RegularBrickMesh::Block
                },
            },
        )
    }
}

pub open spec fn ramp_type_of(s: Seq<char>, pos: (i64, i64, i64), facing: int) -> Result<
    BrickType,
    NameError,
> {
    let inverted = sign_len(s) == 1;
    let i = ramp_body(s);
    let w = number(s, i, run_end(s, i));
    match ramp_angle_of(s.subrange(sign_len(s), run_end(s, sign_len(s)))) {
        None => Err(NameError::UnknownRampAngle),
        Some(angle) => if w > MAX_DIMENSION {
            Err(NameError::DimensionTooLarge)
        } else {
            Ok(
                BrickType::Ramp {
                    cframe: grid_frame(pos, facing, inverted),
                    size: vec3(
                        w * STUD,
                        BRICK_HEIGHT * angle.height_multiple(),
                        angle.ramp_depth() * STUD,
                    ),
                    inverted,
                },
            )
        },
    }
}

pub open spec fn corner_type_of(s: Seq<char>, pos: (i64, i64, i64), facing: int) -> Result<
    BrickType,
    NameError,
> {
    let inverted = sign_len(s) == 1;
    match ramp_angle_of(s.subrange(sign_len(s), run_end(s, sign_len(s)))) {
        None => Err(NameError::UnknownRampAngle),
        Some(angle) => Ok(
            BrickType::RampCorner {
                corner_cframe: grid_frame(pos, (facing + 2 + bump(inverted)) % 4, inverted),
                wedge_cframe_1: grid_frame(pos, (facing + 1) % 4, inverted),
                wedge_cframe_2: grid_frame(pos, facing, inverted),
                size: vec3(
                    angle.corner_plan() * STUD,
                    BRICK_HEIGHT * angle.height_multiple(),
                    angle.corner_plan() * STUD,
                ),
                inverted,
            },
        ),
    }
}

/// What a brick named `s` at `pos` with this facing is: the first of the
/// four shapes (tall block, regular block, ramp, corner ramp) that the name
/// matches, or `Unknown` when it matches none. A ramp whose slope is not 25,
/// 45, 72 or 80 degrees is an error, and so is a dimension above
/// `MAX_DIMENSION` (4,294,967,295), the largest whose size in ticks the
/// library holds.
pub open spec fn brick_type_of(s: Seq<char>, pos: (i64, i64, i64), facing: int) -> Result<
    BrickType,
    NameError,
> {
    if is_tall(s) {
        tall_type_of(s, pos, facing)
    } else if is_regular(s) {
        regular_type_of(s, pos, facing)
    } else if is_ramp(s) {
        ramp_type_of(s, pos, facing)
    } else if is_corner(s) {
        corner_type_of(s, pos, facing)
    } else {
        Ok(BrickType::Unknown)
    }
}

fn ramp_or_corner_type(s: &Vec<char>, pos: (i64, i64, i64), angle: u8) -> (r: Result<
    BrickType,
    NameError,
>)
    requires
        grid_pos_ok(pos),
        angle < 4,
        !is_tall(s@),
        !is_regular(s@),
    ensures
        r == brick_type_of(s@, pos, angle as int),
{
    let n = s.len();
    let inverted = n > 0 && s[0] == '-';
    let a: usize = if inverted {
        1
    } else {
        0
    };
    let e1 = digits_end(s, a);
    if e1 == a || !has_word(s, e1, &ramp_word_exec()) {
        return Ok(BrickType::Unknown);
    }
    let i = e1 + 7;
    let e = digits_end(s, i);
    let is_ramp = e > i && has_word(s, e, &x_word_exec()) && (e + 1 == n || (has_word(
        s,
        e + 1,
        &print_word_exec(),
    ) && e + 7 == n));
    let is_corner = !is_ramp && has_word(s, i, &corner_word_exec()) && i + 6 == n;
    if !is_ramp && !is_corner {
        return Ok(BrickType::Unknown);
    }
    let slope = match ramp_angle_at(s, a, e1) {
        None => {
            return Err(NameError::UnknownRampAngle);
        },
        Some(slope) => slope,
    };
    let (height, depth, plan): (i64, i64, i64) = match slope {
        RampAngle::Angle25 => (1, 2, 3),
        RampAngle::Angle45 => (1, 1, 2),
        RampAngle::Angle72 => (3, 1, 2),
        RampAngle::Angle80 => (5, 1, 2),
    };
    if is_ramp {
        let w = match read_number(s, i, e) {
            None => {
                return Err(NameError::DimensionTooLarge);
            },
            Some(w) => w,
        };
        Ok(
            BrickType::Ramp {
                cframe: cframe_from_pos_and_rot(pos, angle, inverted),
                size: Vector3 { x: (w as i64) * STUD, y: BRICK_HEIGHT * height, z: depth * STUD },
                inverted,
            },
        )
    } else {
        Ok(
            BrickType::RampCorner {
                corner_cframe: cframe_from_pos_and_rot(
                    pos,
                    (angle + if inverted {
                        3
                    } else {
                        2
                    }) % 4,
                    inverted,
                ),
                wedge_cframe_1: cframe_from_pos_and_rot(pos, (angle + 1) % 4, inverted),
                wedge_cframe_2: cframe_from_pos_and_rot(pos, angle, inverted),
                size: Vector3 { x: plan * STUD, y: BRICK_HEIGHT * height, z: plan * STUD },
                inverted,
            },
        )
    }
}

/// Classifies a brick by its name and works out its size and poses.
pub fn get_brick_type(brick: &BrickRecord) -> (r: Result<BrickType, NameError>)
    requires
        brick.wf(),
    ensures
        r == brick_type_of(brick.ui_name@, brick.position, brick.angle as int),
{
    let s = chars_of(brick.ui_name.as_str());
    let n = s.len();
    let pos = brick.position;
    let angle = brick.angle;
    let xw = x_word_exec();
    let e1 = digits_end(&s, 0);
    if e1 > 0 && has_word(&s, e1, &xw) {
        let e2 = digits_end(&s, e1 + 1);
        if e2 > e1 + 1 {
            if has_word(&s, e2, &xw) {
                let e3 = digits_end(&s, e2 + 1);
                if e3 > e2 + 1 && (e3 == n || (has_word(&s, e3, &print_word_exec()) && e3 + 6
                    == n)) {
                    let x = read_number(&s, 0, e1);
                    let z = read_number(&s, e1 + 1, e2);
                    let y = read_number(&s, e2 + 1, e3);
                    if x.is_none() || z.is_none() || y.is_none() {
                        return Err(NameError::DimensionTooLarge);
                    }
                    let x = x.unwrap() as i64;
                    let z = z.unwrap() as i64;
                    let y = y.unwrap() as i64;
                    let turn: u8 = if e3 < n {
                        1
                    } else {
                        0
                    };
                    return Ok(
                        BrickType::Regular {
                            cframe: cframe_from_pos_and_rot(pos, (angle + turn) % 4, false),
                            size: Vector3 { x: x * STUD, y: y * BRICK_HEIGHT, z: z * STUD },
                            mesh: RegularBrickMesh::Block,
                        },
                    );
                }
            }
            if let Some((flat, round, print)) = regular_tail_exec(&s, e2) {
                let x = read_number(&s, 0, e1);
                let z = read_number(&s, e1 + 1, e2);
                if x.is_none() || z.is_none() {
                    return Err(NameError::DimensionTooLarge);
                }
                let x = x.unwrap() as i64;
                let z = z.unwrap() as i64;
                let turn: u8 = if print {
                    1
                } else {
                    0
                };
                let height = if flat {
                    PLATE_HEIGHT
                } else {
                    BRICK_HEIGHT
                };
                return Ok(
                    BrickType::Regular {
                        cframe: cframe_from_pos_and_rot(pos, (angle + turn) % 4, false),
                        size: Vector3 { x: x * STUD, y: height, z: z * STUD },
                        mesh: if round {
                            RegularBrickMesh::Round
                        } else {
                            RegularBrickMesh::Block
                        },
                    },
                );
            }
        }
    }
    ramp_or_corner_type(&s, pos, angle)
}

} // verus!
