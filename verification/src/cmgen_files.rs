//! The files cmgen writes for a skybox: face file names, which mip levels are present,
//! and the text format of the spherical-harmonics coefficients.

use vstd::prelude::*;
use vstd::string::StrSliceExecFns;
use vstd::string::StringExecFns;

verus! {

/// Why a cmgen directory cannot be read.
#[derive(Debug, Clone, Copy, PartialEq, Eq, Structural)]
pub enum CmgenFilesError {
    /// Some but not all six face files of a level are present.
    IncompleteFaceSet { found: usize, expected: usize },
    /// No prefiltered mip level was found.
    NoPrefilteredLevels,
    /// A line of the SH file has no `(`, or no `)` after it.
    InvalidShLine,
    /// A component of an SH line is not a number.
    InvalidShValue,
    /// A line of the SH file holds this many components instead of 3.
    WrongComponentCount { count: usize },
    /// The SH file holds this many coefficients instead of 9.
    WrongCoefficientCount { count: usize },
}

/// cmgen's suffix for cube face `i`: +x, -x, +y, -y, +z, -z.
pub open spec fn face_name(i: int) -> Seq<char> {
    if i == 0 {
        "px"@
    } else if i == 1 {
        "nx"@
    } else if i == 2 {
        "py"@
    } else if i == 3 {
        "ny"@
    } else if i == 4 {
        "pz"@
    } else {
        "nz"@
    }
}

/// The suffixes of the six cube faces, in cmgen's order.
pub fn cmgen_face_names() -> (r: [&'static str; 6])
    ensures
        forall|i: int| 0 <= i < 6 ==> (#[trigger] r@[i])@ == face_name(i),
{
    ["px", "nx", "py", "ny", "pz", "nz"]
}

/// The decimal digit `d`.
pub open spec fn digit_char(d: int) -> char {
    if d == 0 {
        '0'
    } else if d == 1 {
        '1'
    } else if d == 2 {
        '2'
    } else if d == 3 {
        '3'
    } else if d == 4 {
        '4'
    } else if d == 5 {
        '5'
    } else if d == 6 {
        '6'
    } else if d == 7 {
        '7'
    } else if d == 8 {
        '8'
    } else {
        '9'
    }
}

/// `n` written in decimal, without leading zeros.
pub open spec fn decimal(n: nat) -> Seq<char>
    decreases n,
{
    if n < 10 {
        seq![digit_char(n as int)]
    } else {
        decimal(n / 10).push(digit_char((n % 10) as int))
    }
}

/// The text of decimal digit `d`.
fn digit_str(d: u64) -> (r: &'static str)
    requires
        d < 10,
    ensures
        r@ == seq![digit_char(d as int)],
{
    proof {
        reveal_strlit("0");
        reveal_strlit("1");
        reveal_strlit("2");
        reveal_strlit("3");
        reveal_strlit("4");
        reveal_strlit("5");
        reveal_strlit("6");
        reveal_strlit("7");
        reveal_strlit("8");
        reveal_strlit("9");
    }
    if d == 0 {
        "0"
    } else if d == 1 {
        "1"
    } else if d == 2 {
        "2"
    } else if d == 3 {
        "3"
    } else if d == 4 {
        "4"
    } else if d == 5 {
        "5"
    } else if d == 6 {
        "6"
    } else if d == 7 {
        "7"
    } else if d == 8 {
        "8"
    } else {
        "9"
    }
}

/// `n` written in decimal.
pub fn decimal_string(n: u64) -> (r: String)
    ensures
        r@ == decimal(n as nat),
    decreases n,
{
    if n < 10 {
        let mut s = String::new();
        s.append(digit_str(n));
        proof {
            assert(s@ =~= decimal(n as nat));
        }
        s
    } else {
        let mut s = decimal_string(n / 10);
        s.append(digit_str(n % 10));
        proof {
            assert(s@ =~= decimal(n as nat));
        }
        s
    }
}

/// The file that holds face `face` of the set named by `prefix`: the prefix, the face
/// suffix and `.exr`.
fn cmgen_face_file_name(prefix: &str, face: &str) -> (r: String)
    ensures
        r@ == prefix@ + face@ + ".exr"@,
{
    let mut s = prefix.to_owned();
    s.append(face);
    s.append(".exr");
    s
}

/// The prefix of the face files of prefiltered mip level `mip_level`: `m`, the level
/// in decimal, `_`.
fn cmgen_mip_prefix(mip_level: u32) -> (r: String)
    ensures
        r@ == "m"@ + decimal(mip_level as nat) + "_"@,
{
    let mut s = "m".to_owned();
    let digits = decimal_string(mip_level as u64);
    s.append(digits.as_str());
    s.append("_");
    s
}

/// The six face file names of the set named by `prefix`, in cmgen's face order.
pub fn cmgen_face_file_names(prefix: &str) -> (r: Vec<String>)
    ensures
        r@.len() == 6,
        forall|i: int| 0 <= i < 6 ==> (#[trigger] r@[i])@ == prefix@ + face_name(i) + ".exr"@,
{
    let names = cmgen_face_names();
    let mut r: Vec<String> = Vec::new();
    let mut i: usize = 0;
    while i < 6
        invariant
            i <= 6,
            r@.len() == i,
            forall|k: int| 0 <= k < 6 ==> (#[trigger] names@[k])@ == face_name(k),
            forall|k: int| 0 <= k < i ==> (#[trigger] r@[k])@ == prefix@ + face_name(k) + ".exr"@,
        decreases 6 - i,
    {
        r.push(cmgen_face_file_name(prefix, names[i]));
        i = i + 1;
    }
    r
}

/// The six face file names of prefiltered mip level `mip_level`: `m<level>_px.exr`
/// and so on.
pub fn cmgen_level_face_file_names(mip_level: u32) -> (r: Vec<String>)
    ensures
        r@.len() == 6,
        forall|i: int|
            0 <= i < 6 ==> (#[trigger] r@[i])@ == "m"@ + decimal(mip_level as nat) + "_"@ + face_name(i) + ".exr"@,
{
    let prefix = cmgen_mip_prefix(mip_level);
    cmgen_face_file_names(prefix.as_str())
}

/// How many of the flags are set.
pub open spec fn count_present(present: Seq<bool>) -> nat
    decreases present.len(),
{
    if present.len() == 0 {
        0
    } else {
        count_present(present.drop_last()) + if present.last() { 1nat } else { 0nat }
    }
}

/// Whether a face set is to be loaded, given which of its files exist: none present
/// means the set is absent (`Ok(false)`), all present that it is complete
/// (`Ok(true)`); anything in between is an error.
pub fn classify_face_set(present: &[bool]) -> (r: Result<bool, CmgenFilesError>)
    ensures
        count_present(present@) == 0 ==> r == Ok::<bool, CmgenFilesError>(false),
        count_present(present@) != 0 && count_present(present@) == present@.len() ==> r == Ok::<
            bool,
            CmgenFilesError,
        >(true),
        count_present(present@) != 0 && count_present(present@) != present@.len() ==> r == Err::<
            bool,
            CmgenFilesError,
        >(CmgenFilesError::IncompleteFaceSet { found: count_present(present@) as usize, expected: present@.len() as usize }),
{
    let mut found: usize = 0;
    let mut i: usize = 0;
    while i < present.len()
        invariant
            i <= present@.len(),
            found == count_present(present@.subrange(0, i as int)),
            found <= i,
        decreases present@.len() - i,
    {
        proof {
            assert(present@.subrange(0, i + 1).drop_last() =~= present@.subrange(0, i as int));
        }
        if present[i] {
            found = found + 1;
        }
        i = i + 1;
    }
    proof {
        assert(present@.subrange(0, present@.len() as int) =~= present@);
    }
    if found == 0 {
        Ok(false)
    } else if found == present.len() {
        Ok(true)
    } else {
        Err(CmgenFilesError::IncompleteFaceSet { found, expected: present.len() })
    }
}

/// A skybox needs at least one prefiltered mip level.
pub fn check_prefiltered_level_count(count: usize) -> (r: Result<(), CmgenFilesError>)
    ensures
        r == (if count == 0 {
            Err::<(), CmgenFilesError>(CmgenFilesError::NoPrefilteredLevels)
        } else {
            Ok::<(), CmgenFilesError>(())
        }),
{
    if count == 0 {
        Err(CmgenFilesError::NoPrefilteredLevels)
    } else {
        Ok(())
    }
}

/// What `classify_face_set` answers for a face set with these files present.
pub open spec fn face_set_verdict(present: Seq<bool>) -> Result<bool, CmgenFilesError> {
    if count_present(present) == 0 {
        Ok(false)
    } else if count_present(present) == present.len() {
        Ok(true)
    } else {
        Err(CmgenFilesError::IncompleteFaceSet { found: count_present(present) as usize, expected: present.len() as usize })
    }
}

/// The prefiltered levels are read from level `i` on: a complete set is loaded and
/// the next level is looked at, an absent one ends the scan, and an incomplete one
/// is an error. Past the last level probed, nothing more is present.
pub open spec fn level_scan(levels: Seq<Seq<bool>>, i: int) -> Result<usize, CmgenFilesError>
    decreases levels.len() - i,
{
    if i < 0 || i >= levels.len() {
        Ok(i as usize)
    } else {
        match face_set_verdict(levels[i]) {
            Ok(true) => level_scan(levels, i + 1),
            Ok(false) => Ok(i as usize),
            Err(e) => Err(e),
        }
    }
}

/// How many prefiltered levels a skybox directory holds, `m0_` on, given which face
/// files of each level probed are present; a directory with none is refused.
pub open spec fn prefiltered_level_scan(levels: Seq<Seq<bool>>) -> Result<usize, CmgenFilesError> {
    match level_scan(levels, 0) {
        Ok(k) => if k == 0 {
            Err(CmgenFilesError::NoPrefilteredLevels)
        } else {
            Ok(k)
        },
        Err(e) => Err(e),
    }
}

/// The number of prefiltered levels to load, given which face files of levels `0`,
/// `1`, ... are present: the levels before the first absent set, as long as none of
/// them is incomplete and there is at least one.
pub fn scan_prefiltered_levels(levels: &[Vec<bool>]) -> (r: Result<usize, CmgenFilesError>)
    ensures
        r == prefiltered_level_scan(levels@.map_values(|v: Vec<bool>| v@)),
        r matches Ok(k) ==> {
            &&& 1 <= k <= levels@.len()
            &&& forall|j: int| 0 <= j < k ==> face_set_verdict(#[trigger] levels@[j]@) == Ok::<bool, CmgenFilesError>(true)
            &&& k < levels@.len() ==> face_set_verdict(levels@[k as int]@) == Ok::<bool, CmgenFilesError>(false)
        },
{
    let ghost p = levels@.map_values(|v: Vec<bool>| v@);
    let mut i: usize = 0;
    while i < levels.len()
        invariant
            i <= levels@.len(),
            p == levels@.map_values(|v: Vec<bool>| v@),
            level_scan(p, 0) == level_scan(p, i as int),
            forall|j: int| 0 <= j < i ==> face_set_verdict(#[trigger] levels@[j]@) == Ok::<bool, CmgenFilesError>(true),
        decreases levels@.len() - i,
    {
        assert(p[i as int] == levels@[i as int]@);
        match classify_face_set(levels[i].as_slice()) {
            Ok(true) => {
                i = i + 1;
            },
            Ok(false) => {
                return match check_prefiltered_level_count(i) {
                    Ok(()) => Ok(i),
                    Err(e) => Err(e),
                };
            },
            Err(e) => {
                return Err(e);
            },
        }
    }
    match check_prefiltered_level_count(i) {
        Ok(()) => Ok(i),
        Err(e) => Err(e),
    }
}

/// A character with the Unicode White_Space property.
pub open spec fn is_white_space(c: char) -> bool {
    let u = c as u32;
    (0x09 <= u && u <= 0x0D) || u == 0x20 || u == 0x85 || u == 0xA0 || u == 0x1680 || (0x2000 <= u
        && u <= 0x200A) || u == 0x2028 || u == 0x2029 || u == 0x202F || u == 0x205F || u == 0x3000
}

fn white_space(c: char) -> (r: bool)
    ensures
        r == is_white_space(c),
{
    let u = c as u32;
    (0x09 <= u && u <= 0x0D) || u == 0x20 || u == 0x85 || u == 0xA0 || u == 0x1680 || (0x2000 <= u
        && u <= 0x200A) || u == 0x2028 || u == 0x2029 || u == 0x202F || u == 0x205F || u == 0x3000
}

/// `s` without leading white space.
pub open spec fn trim_start(s: Seq<char>) -> Seq<char>
    decreases s.len(),
{
    if s.len() > 0 && is_white_space(s[0]) {
        trim_start(s.drop_first())
    } else {
        s
    }
}

/// `s` without trailing white space.
pub open spec fn trim_end(s: Seq<char>) -> Seq<char>
    decreases s.len(),
{
    if s.len() > 0 && is_white_space(s.last()) {
        trim_end(s.drop_last())
    } else {
        s
    }
}

/// `s` without leading and trailing white space.
pub open spec fn trim(s: Seq<char>) -> Seq<char> {
    trim_end(trim_start(s))
}

/// The first index at or after `i` where `s` holds `c`, or -1.
pub open spec fn index_of_from(s: Seq<char>, c: char, i: int) -> int
    decreases s.len() - i,
{
    if i < 0 || i >= s.len() {
        -1
    } else if s[i] == c {
        i
    } else {
        index_of_from(s, c, i + 1)
    }
}

/// The pieces of `s` between commas, empty ones included.
pub open spec fn split_commas(s: Seq<char>) -> Seq<Seq<char>>
    decreases s.len(),
{
    let i = index_of_from(s, ',', 0);
    if 0 <= i < s.len() {
        seq![s.subrange(0, i)] + split_commas(s.subrange(i + 1, s.len() as int))
    } else {
        seq![s]
    }
}

/// What a line of the SH file holds: nothing for a blank line; otherwise the trimmed
/// comma-separated components between the first `(` and the first `)` after it, or
/// an error when either is missing.
pub open spec fn sh_line_components(line: Seq<char>) -> Result<Option<Seq<Seq<char>>>, CmgenFilesError> {
    let t = trim(line);
    let a = index_of_from(t, '(', 0);
    let rest = t.subrange(a + 1, t.len() as int);
    let e = index_of_from(rest, ')', 0);
    if t.len() == 0 {
        Ok(None)
    } else if a < 0 || e < 0 {
        Err(CmgenFilesError::InvalidShLine)
    } else {
        Ok(Some(split_commas(rest.subrange(0, e)).map_values(|p: Seq<char>| trim(p))))
    }
}

proof fn lemma_index_of_from_range(s: Seq<char>, c: char, i: int)
    ensures
        index_of_from(s, c, i) == -1 || (i <= index_of_from(s, c, i) < s.len() && 0 <= index_of_from(s, c, i)
            && s[index_of_from(s, c, i)] == c),
    decreases s.len() - i,
{
    if 0 <= i < s.len() && s[i] != c {
        lemma_index_of_from_range(s, c, i + 1);
    }
}

proof fn lemma_trim_start_at(s: Seq<char>, a: int)
    requires
        0 <= a <= s.len(),
        forall|k: int| 0 <= k < a ==> is_white_space(#[trigger] s[k]),
        a == s.len() || !is_white_space(s[a]),
    ensures
        trim_start(s) == s.subrange(a, s.len() as int),
    decreases a,
{
    if a == 0 {
        assert(s.subrange(0, s.len() as int) =~= s);
    } else {
        assert(is_white_space(s[0]));
        let d = s.drop_first();
        assert forall|k: int| 0 <= k < a - 1 implies is_white_space(#[trigger] d[k]) by {
            assert(d[k] == s[k + 1]);
        }
        if a - 1 < d.len() {
            assert(d[a - 1] == s[a]);
        }
        lemma_trim_start_at(d, a - 1);
        assert(d.subrange(a - 1, d.len() as int) =~= s.subrange(a, s.len() as int));
    }
}

proof fn lemma_trim_end_at(s: Seq<char>, b: int)
    requires
        0 <= b <= s.len(),
        forall|k: int| b <= k < s.len() ==> is_white_space(#[trigger] s[k]),
        b == 0 || !is_white_space(s[b - 1]),
    ensures
        trim_end(s) == s.subrange(0, b),
    decreases s.len() - b,
{
    if b == s.len() {
        if s.len() > 0 {
            assert(s.last() == s[b - 1]);
        }
        assert(s.subrange(0, s.len() as int) =~= s);
    } else {
        assert(is_white_space(s.last()));
        let d = s.drop_last();
        assert forall|k: int| b <= k < d.len() implies is_white_space(#[trigger] d[k]) by {
            assert(d[k] == s[k]);
        }
        if b > 0 {
            assert(d[b - 1] == s[b - 1]);
        }
        lemma_trim_end_at(d, b);
        assert(d.subrange(0, b) =~= s.subrange(0, b));
    }
}

/// `s` without leading and trailing white space.
fn trim_str(s: &str) -> (r: &str)
    ensures
        r@ == trim(s@),
{
    let n = s.unicode_len();
    let mut a: usize = 0;
    while a < n && white_space(s.get_char(a))
        invariant
            a <= n,
            n == s@.len(),
            forall|k: int| 0 <= k < a ==> is_white_space(#[trigger] s@[k]),
        decreases n - a,
    {
        a = a + 1;
    }
    proof {
        lemma_trim_start_at(s@, a as int);
    }
    let ghost t = s@.subrange(a as int, n as int);
    let mut b: usize = n;
    while b > a && white_space(s.get_char(b - 1))
        invariant
            a <= b <= n,
            n == s@.len(),
            t == s@.subrange(a as int, n as int),
            forall|k: int| b <= k < n ==> is_white_space(#[trigger] s@[k]),
        decreases b - a,
    {
        b = b - 1;
    }
    proof {
        assert forall|k: int| (b - a) <= k < t.len() implies is_white_space(#[trigger] t[k]) by {
            assert(t[k] == s@[k + a]);
        }
        if b > a {
            assert(t[b - a - 1] == s@[b - 1]);
        }
        lemma_trim_end_at(t, b - a);
        assert(t.subrange(0, b - a) =~= s@.subrange(a as int, b as int));
    }
    s.substring_char(a, b)
}

/// The first index at or after `from` where `s` holds `c`, if any.
fn find_char(s: &str, c: char, from: usize) -> (r: Option<usize>)
    requires
        from <= s@.len(),
    ensures
        r == (if index_of_from(s@, c, from as int) < 0 {
            None::<usize>
        } else {
            Some(index_of_from(s@, c, from as int) as usize)
        }),
{
    let n = s.unicode_len();
    let mut i: usize = from;
    while i < n
        invariant
            from <= i <= n,
            n == s@.len(),
            index_of_from(s@, c, from as int) == index_of_from(s@, c, i as int),
        decreases n - i,
    {
        if s.get_char(i) == c {
            return Some(i);
        }
        i = i + 1;
    }
    None
}

/// The trimmed pieces of `s` between commas.
fn split_commas_trimmed<'a>(s: &'a str) -> (r: Vec<&'a str>)
    ensures
        r@.len() == split_commas(s@).len(),
        forall|k: int| 0 <= k < r@.len() ==> (#[trigger] r@[k])@ == trim(split_commas(s@)[k]),
{
    let n = s.unicode_len();
    let mut r: Vec<&'a str> = Vec::new();
    let mut start: usize = 0;
    let ghost done: Seq<Seq<char>> = Seq::empty();
    proof {
        assert(s@.subrange(0, n as int) =~= s@);
        assert(done + split_commas(s@) =~= split_commas(s@));
    }
    loop
        invariant
            start <= n,
            n == s@.len(),
            split_commas(s@) == done + split_commas(s@.subrange(start as int, n as int)),
            r@.len() == done.len(),
            forall|k: int| 0 <= k < r@.len() ==> (#[trigger] r@[k])@ == trim(done[k]),
        decreases n - start,
    {
        let ghost rest = s@.subrange(start as int, n as int);
        proof {
            lemma_index_of_from_range(rest, ',', 0);
        }
        match find_char(s, ',', start) {
            Some(i) => {
                proof {
                    lemma_index_of_from_range(s@, ',', start as int);
                    lemma_first_index_shift(s@, ',', start as int);
                    let j = i - start;
                    assert(index_of_from(rest, ',', 0) == j);
                    assert(rest.subrange(0, j) =~= s@.subrange(start as int, i as int));
                    assert(rest.subrange(j + 1, rest.len() as int) =~= s@.subrange(i + 1, n as int));
                    done = done.push(s@.subrange(start as int, i as int));
                    assert(split_commas(rest) == seq![rest.subrange(0, j)] + split_commas(
                        rest.subrange(j + 1, rest.len() as int),
                    ));
                }
                let piece = s.substring_char(start, i);
                r.push(trim_str(piece));
                start = i + 1;
                proof {
                    assert(split_commas(s@) =~= done + split_commas(s@.subrange(start as int, n as int)));
                }
            },
            None => {
                proof {
                    lemma_first_index_shift(s@, ',', start as int);
                    assert(index_of_from(rest, ',', 0) < 0);
                    assert(split_commas(rest) == seq![rest]);
                }
                let piece = s.substring_char(start, n);
                r.push(trim_str(piece));
                proof {
                    done = done.push(rest);
                    assert(split_commas(s@) =~= done);
                }
                return r;
            },
        }
    }
}

/// Searching `s` from `i` finds what searching its suffix from `i` finds, shifted.
proof fn lemma_first_index_shift(s: Seq<char>, c: char, i: int)
    requires
        0 <= i <= s.len(),
    ensures
        index_of_from(s, c, i) < 0 <==> index_of_from(s.subrange(i, s.len() as int), c, 0) < 0,
        index_of_from(s, c, i) >= 0 ==> index_of_from(s.subrange(i, s.len() as int), c, 0) == index_of_from(s, c, i) - i,
{
    lemma_index_shift_from(s, c, i, i);
}

proof fn lemma_index_shift_from(s: Seq<char>, c: char, i: int, j: int)
    requires
        0 <= i <= j <= s.len(),
    ensures
        index_of_from(s, c, j) < 0 <==> index_of_from(s.subrange(i, s.len() as int), c, j - i) < 0,
        index_of_from(s, c, j) >= 0 ==> index_of_from(s.subrange(i, s.len() as int), c, j - i) == index_of_from(s, c, j) - i,
    decreases s.len() - j,
{
    let t = s.subrange(i, s.len() as int);
    if j < s.len() {
        assert(t[j - i] == s[j]);
        if s[j] != c {
            lemma_index_shift_from(s, c, i, j + 1);
        }
    }
}

/// The components of one line of the SH file: `Ok(None)` for a blank line, else the
/// trimmed comma-separated pieces between its first `(` and the first `)` after it.
pub fn parse_sh_line<'a>(line: &'a str) -> (r: Result<Option<Vec<&'a str>>, CmgenFilesError>)
    ensures
        match sh_line_components(line@) {
            Ok(None) => r matches Ok(None),
            Ok(Some(parts)) => r matches Ok(Some(v)) && v@.len() == parts.len() && forall|k: int|
                0 <= k < parts.len() ==> (#[trigger] v@[k])@ == parts[k],
            Err(e) => r == Err::<Option<Vec<&'a str>>, CmgenFilesError>(e),
        },
{
    let t = trim_str(line);
    let n = t.unicode_len();
    if n == 0 {
        return Ok(None);
    }
    let a = match find_char(t, '(', 0) {
        Some(a) => a,
        None => {
            return Err(CmgenFilesError::InvalidShLine);
        },
    };
    proof {
        lemma_index_of_from_range(t@, '(', 0);
    }
    let ghost rest = t@.subrange(a + 1, n as int);
    let e = match find_char(t, ')', a + 1) {
        Some(e) => e,
        None => {
            proof {
                lemma_first_index_shift(t@, ')', a + 1);
            }
            return Err(CmgenFilesError::InvalidShLine);
        },
    };
    proof {
        lemma_index_of_from_range(t@, ')', a + 1);
        lemma_first_index_shift(t@, ')', a + 1);
        assert(rest.subrange(0, e - a - 1) =~= t@.subrange(a + 1, e as int));
    }
    let inner = t.substring_char(a + 1, e);
    let parts = split_commas_trimmed(inner);
    proof {
        let spec_parts = split_commas(inner@).map_values(|p: Seq<char>| trim(p));
        assert(spec_parts.len() == parts@.len());
    }
    Ok(Some(parts))
}

/// Each SH line holds the three color components of one coefficient.
pub fn check_sh_component_count(count: usize) -> (r: Result<(), CmgenFilesError>)
    ensures
        r == (if count == 3 {
            Ok::<(), CmgenFilesError>(())
        } else {
            Err::<(), CmgenFilesError>(CmgenFilesError::WrongComponentCount { count })
        }),
{
    if count == 3 {
        Ok(())
    } else {
        Err(CmgenFilesError::WrongComponentCount { count })
    }
}

/// The SH file holds the nine coefficients of three bands.
pub fn check_sh_coefficient_count(count: usize) -> (r: Result<(), CmgenFilesError>)
    ensures
        r == (if count == 9 {
            Ok::<(), CmgenFilesError>(())
        } else {
            Err::<(), CmgenFilesError>(CmgenFilesError::WrongCoefficientCount { count })
        }),
{
    if count == 9 {
        Ok(())
    } else {
        Err(CmgenFilesError::WrongCoefficientCount { count })
    }
}

} // verus!

verus! {

/// The lines of `t`: the pieces between line feeds, without a final empty piece after
/// a trailing line feed.
pub open spec fn text_lines(t: Seq<char>) -> Seq<Seq<char>>
    decreases t.len(),
{
    let i = index_of_from(t, '\n', 0);
    if t.len() == 0 {
        Seq::empty()
    } else if 0 <= i < t.len() {
        seq![t.subrange(0, i)] + text_lines(t.subrange(i + 1, t.len() as int))
    } else {
        seq![t]
    }
}

/// The components of the non-blank SH lines before the first line that is not of the
/// form `(...)`, and whether such a line stopped the scan.
pub open spec fn sh_scan(lines: Seq<Seq<char>>) -> (Seq<Seq<Seq<char>>>, bool)
    decreases lines.len(),
{
    if lines.len() == 0 {
        (Seq::empty(), false)
    } else {
        let rest = sh_scan(lines.drop_first());
        match sh_line_components(lines[0]) {
            Err(_) => (Seq::empty(), true),
            Ok(None) => rest,
            Ok(Some(parts)) => (seq![parts] + rest.0, rest.1),
        }
    }
}

/// The SH file's lines, scanned: the components of each non-blank line in order up to
/// the first malformed line, and whether a malformed line ends the scan.
pub fn sh_file_components<'a>(text: &'a str) -> (r: (Vec<Vec<&'a str>>, bool))
    ensures
        r.1 == sh_scan(text_lines(text@)).1,
        r.0@.len() == sh_scan(text_lines(text@)).0.len(),
        forall|i: int|
            0 <= i < r.0@.len() ==> (#[trigger] r.0@[i])@.len() == sh_scan(text_lines(text@)).0[i].len() && forall|
                k: int,
            |
                0 <= k < r.0@[i]@.len() ==> (#[trigger] r.0@[i]@[k])@ == sh_scan(text_lines(text@)).0[i][k],
{
    let n = text.unicode_len();
    let mut out: Vec<Vec<&'a str>> = Vec::new();
    let mut start: usize = 0;
    let ghost mut done: Seq<Seq<Seq<char>>> = Seq::empty();
    proof {
        assert(text@.subrange(0, n as int) =~= text@);
        assert(done + sh_scan(text_lines(text@)).0 =~= sh_scan(text_lines(text@)).0);
    }
    while start < n
        invariant
            start <= n,
            n == text@.len(),
            sh_scan(text_lines(text@)).1 == sh_scan(text_lines(text@.subrange(start as int, n as int))).1,
            sh_scan(text_lines(text@)).0 == done + sh_scan(text_lines(text@.subrange(start as int, n as int))).0,
            out@.len() == done.len(),
            forall|i: int|
                0 <= i < out@.len() ==> (#[trigger] out@[i])@.len() == done[i].len() && forall|k: int|
                    0 <= k < out@[i]@.len() ==> (#[trigger] out@[i]@[k])@ == done[i][k],
        decreases n - start,
    {
        let ghost rest = text@.subrange(start as int, n as int);
        let end = match find_char(text, '\n', start) {
            Some(e) => e,
            None => n,
        };
        proof {
            lemma_index_of_from_range(text@, '\n', start as int);
            lemma_first_index_shift(text@, '\n', start as int);
            let j = index_of_from(rest, '\n', 0);
            if j >= 0 {
                assert(rest.subrange(0, j) =~= text@.subrange(start as int, end as int));
                assert(rest.subrange(j + 1, rest.len() as int) =~= text@.subrange(end + 1, n as int));
            } else {
                assert(rest =~= text@.subrange(start as int, end as int));
            }
        }
        let line = text.substring_char(start, end);
        let ghost line_v = line@;
        let ghost next = if end < n { text@.subrange(end + 1, n as int) } else { Seq::<char>::empty() };
        proof {
            assert(text_lines(rest) == seq![line_v] + text_lines(next));
            assert((seq![line_v] + text_lines(next)).drop_first() =~= text_lines(next));
            assert((seq![line_v] + text_lines(next))[0] == line_v);
        }
        match parse_sh_line(line) {
            Err(_) => {
                proof {
                    assert(sh_scan(text_lines(rest)) == (Seq::<Seq<Seq<char>>>::empty(), true));
                    assert(done + Seq::<Seq<Seq<char>>>::empty() =~= done);
                }
                return (out, true);
            },
            Ok(None) => {},
            Ok(Some(parts)) => {
                proof {
                    let sp = sh_line_components(line_v)->Ok_0->Some_0;
                    done = done.push(sp);
                    assert(seq![sp] + sh_scan(text_lines(next)).0 == sh_scan(text_lines(rest)).0);
                    assert(done.drop_last() + (seq![sp] + sh_scan(text_lines(next)).0) =~= done + sh_scan(
                        text_lines(next),
                    ).0);
                }
                out.push(parts);
            },
        }
        proof {
            if end >= n {
                assert(text_lines(next) =~= Seq::<Seq<char>>::empty());
            }
        }
        start = if end < n { end + 1 } else { n };
        proof {
            if end < n {
                assert(next =~= text@.subrange(start as int, n as int));
            } else {
                assert(text@.subrange(start as int, n as int) =~= Seq::<char>::empty());
            }
        }
    }
    proof {
        assert(text@.subrange(start as int, n as int) =~= Seq::<char>::empty());
        assert(text_lines(Seq::<char>::empty()) =~= Seq::<Seq<char>>::empty());
        assert(done + Seq::<Seq<Seq<char>>>::empty() =~= done);
    }
    (out, false)
}

/// The verdict on an SH file, in the order its lines are read: for each scanned line
/// in turn, a value that does not parse (`value_error_at`, the first such line) and
/// then a component count other than 3 are refused; then a malformed line that ended
/// the scan; then a number of coefficients other than 9.
pub open spec fn sh_file_verdict_spec(counts: Seq<usize>, value_error_at: Option<usize>, malformed_follows: bool) -> Result<
    (),
    CmgenFilesError,
>
    decreases counts.len(),
{
    sh_verdict_from(counts, value_error_at, malformed_follows, 0)
}

/// The verdict from line `i` on.
pub open spec fn sh_verdict_from(counts: Seq<usize>, value_error_at: Option<usize>, malformed_follows: bool, i: int) -> Result<
    (),
    CmgenFilesError,
>
    decreases counts.len() - i,
{
    if i < 0 || i >= counts.len() {
        if malformed_follows {
            Err(CmgenFilesError::InvalidShLine)
        } else if counts.len() != 9 {
            Err(CmgenFilesError::WrongCoefficientCount { count: counts.len() as usize })
        } else {
            Ok(())
        }
    } else if value_error_at == Some(i as usize) {
        Err(CmgenFilesError::InvalidShValue)
    } else if counts[i] != 3 {
        Err(CmgenFilesError::WrongComponentCount { count: counts[i] })
    } else {
        sh_verdict_from(counts, value_error_at, malformed_follows, i + 1)
    }
}

/// Whether an SH file holds its nine coefficients of three components, given the
/// component counts of its scanned lines, the first of them whose values do not parse
/// (if any), and whether a malformed line ended the scan.
pub fn sh_file_verdict(counts: &[usize], value_error_at: Option<usize>, malformed_follows: bool) -> (r: Result<
    (),
    CmgenFilesError,
>)
    ensures
        r == sh_file_verdict_spec(counts@, value_error_at, malformed_follows),
{
    let mut i: usize = 0;
    while i < counts.len()
        invariant
            i <= counts@.len(),
            sh_file_verdict_spec(counts@, value_error_at, malformed_follows) == sh_verdict_from(
                counts@,
                value_error_at,
                malformed_follows,
                i as int,
            ),
        decreases counts@.len() - i,
    {
        if value_error_at == Some(i) {
            return Err(CmgenFilesError::InvalidShValue);
        }
        if let Err(e) = check_sh_component_count(counts[i]) {
            return Err(e);
        }
        i = i + 1;
    }
    if malformed_follows {
        Err(CmgenFilesError::InvalidShLine)
    } else {
        check_sh_coefficient_count(counts.len())
    }
}

} // verus!
