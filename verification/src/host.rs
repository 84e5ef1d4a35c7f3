use vstd::prelude::*;
use vstd::string::StrSliceExecFns;

verus! {

/// A decimal digit.
pub open spec fn spec_is_digit(c: char) -> bool {
    48 <= c as u32 <= 57
}

/// A run of one to three decimal digits.
pub open spec fn spec_digit_run(s: Seq<char>) -> bool {
    &&& 1 <= s.len() <= 3
    &&& forall|i: int| 0 <= i < s.len() ==> spec_is_digit(#[trigger] s[i])
}

/// The text splits at positions i < j < k into four digit runs separated
/// by dots.
pub open spec fn spec_quad_split(s: Seq<char>, i: int, j: int, k: int) -> bool {
    &&& 0 < i < j < k < s.len()
    &&& s[i] == '.' && s[j] == '.' && s[k] == '.'
    &&& spec_digit_run(s.subrange(0, i))
    &&& spec_digit_run(s.subrange(i + 1, j))
    &&& spec_digit_run(s.subrange(j + 1, k))
    &&& spec_digit_run(s.subrange(k + 1, s.len() as int))
}

/// A dotted quad: four runs of one to three digits, separated by dots,
/// covering the whole text.
pub open spec fn spec_is_dotted_quad(s: Seq<char>) -> bool {
    exists|i: int, j: int, k: int| spec_quad_split(s, i, j, k)
}

/// The numeric value of a digit run, most significant digit first.
pub open spec fn spec_run_val(s: Seq<char>) -> int
    decreases s.len(),
{
    if s.len() == 0 {
        0
    } else {
        spec_run_val(s.drop_last()) * 10 + s.last() as u32 - 48
    }
}

/// The positions of the three dots of a dotted quad.
pub open spec fn spec_quad_dots(s: Seq<char>) -> (int, int, int) {
    choose|i: int, j: int, k: int| spec_quad_split(s, i, j, k)
}

/// The four octet values of a dotted quad, left to right.
pub open spec fn spec_octet_vals(s: Seq<char>) -> Seq<int> {
    let (i, j, k) = spec_quad_dots(s);
    seq![
        spec_run_val(s.subrange(0, i)),
        spec_run_val(s.subrange(i + 1, j)),
        spec_run_val(s.subrange(j + 1, k)),
        spec_run_val(s.subrange(k + 1, s.len() as int)),
    ]
}

/// In a dotted quad every character is a digit or a dot, and the dots
/// stand exactly at the three split positions.
proof fn lemma_quad_chars(s: Seq<char>, i: int, j: int, k: int)
    requires
        spec_quad_split(s, i, j, k),
    ensures
        forall|p: int|
            0 <= p < s.len() ==> (spec_is_digit(#[trigger] s[p]) || s[p] == '.'),
        forall|p: int|
            0 <= p < s.len() ==> ((#[trigger] s[p]) == '.' <==> (p == i || p == j || p == k)),
{
    assert forall|p: int|
        0 <= p < s.len() implies (spec_is_digit(#[trigger] s[p]) || s[p] == '.') && (s[p] == '.'
        <==> (p == i || p == j || p == k)) by {
        if p < i {
            assert(s.subrange(0, i)[p] == s[p]);
            assert(spec_is_digit(s[p]));
        } else if p == i {
        } else if p < j {
            assert(s.subrange(i + 1, j)[p - (i + 1)] == s[p]);
            assert(spec_is_digit(s[p]));
        } else if p == j {
        } else if p < k {
            assert(s.subrange(j + 1, k)[p - (j + 1)] == s[p]);
            assert(spec_is_digit(s[p]));
        } else if p == k {
        } else {
            assert(s.subrange(k + 1, s.len() as int)[p - (k + 1)] == s[p]);
            assert(spec_is_digit(s[p]));
        }
    }
}

/// A dotted quad splits in exactly one way.
proof fn lemma_quad_dots_unique(s: Seq<char>, i: int, j: int, k: int)
    requires
        spec_quad_split(s, i, j, k),
    ensures
        spec_quad_dots(s) == (i, j, k),
{
    let (a, b, c) = spec_quad_dots(s);
    assert(spec_quad_split(s, a, b, c));
    lemma_quad_chars(s, i, j, k);
    assert(s[a] == '.' && s[b] == '.' && s[c] == '.');
}

/// A digit run of up to three digits holds a value below 1000.
proof fn lemma_run_val_bounds(s: Seq<char>)
    requires
        forall|i: int| 0 <= i < s.len() ==> spec_is_digit(#[trigger] s[i]),
        s.len() <= 3,
    ensures
        0 <= spec_run_val(s) < 1000,
    decreases s.len(),
{
    if s.len() > 0 {
        lemma_run_val_bounds(s.drop_last());
        if s.len() == 1 {
            assert(spec_run_val(s.drop_last()) == 0);
        } else {
            assert(spec_run_val(s.drop_last()) < 100) by {
                lemma_run_val_small(s.drop_last());
            }
        }
    }
}

/// A digit run's value is below ten to its length.
proof fn lemma_run_val_small(s: Seq<char>)
    requires
        forall|i: int| 0 <= i < s.len() ==> spec_is_digit(#[trigger] s[i]),
        s.len() <= 2,
    ensures
        0 <= spec_run_val(s) < 100,
    decreases s.len(),
{
    if s.len() > 0 {
        lemma_run_val_small(s.drop_last());
        if s.len() == 1 {
            assert(spec_run_val(s.drop_last()) == 0);
        } else {
            assert(spec_run_val(s.drop_last()) < 10) by {
                assert(s.drop_last().len() == 1);
                assert(spec_run_val(s.drop_last().drop_last()) == 0);
            }
        }
    }
}

/// Scans the text once: the positions of its dots, in order, and whether
/// every character is a digit or a dot.
fn scan(s: &str) -> (r: (Vec<usize>, bool))
    ensures
        ({
            let (dots, clean) = r;
            &&& clean <==> forall|p: int|
                0 <= p < s@.len() ==> (spec_is_digit(#[trigger] s@[p]) || s@[p] == '.')
            &&& forall|q: int|
                0 <= q < dots@.len() ==> 0 <= #[trigger] dots@[q] < s@.len()
                    && s@[dots@[q] as int] == '.'
            &&& forall|a: int, b: int| 0 <= a < b < dots@.len() ==> dots@[a] < dots@[b]
            &&& forall|p: int|
                0 <= p < s@.len() && s@[p] == '.' ==> exists|q: int|
                    0 <= q < dots@.len() && #[trigger] dots@[q] == p
        }),
{
    let len = s.unicode_len();
    let mut dots: Vec<usize> = Vec::new();
    let mut clean = true;
    let mut p: usize = 0;
    while p < len
        invariant
            len == s@.len(),
            p <= len,
            clean <==> forall|q: int|
                0 <= q < p ==> (spec_is_digit(#[trigger] s@[q]) || s@[q] == '.'),
            forall|q: int|
                0 <= q < dots@.len() ==> 0 <= #[trigger] dots@[q] < p && s@[dots@[q] as int]
                    == '.',
            forall|a: int, b: int| 0 <= a < b < dots@.len() ==> dots@[a] < dots@[b],
            forall|q: int|
                0 <= q < p && s@[q] == '.' ==> exists|w: int|
                    0 <= w < dots@.len() && #[trigger] dots@[w] == q,
        decreases len - p,
    {
        let c = s.get_char(p);
        if c == '.' {
            let ghost pre_dots = dots@;
            dots.push(p);
            proof {
                assert forall|q: int|
                    0 <= q < p + 1 && s@[q] == '.' implies exists|w: int|
                    0 <= w < dots@.len() && #[trigger] dots@[w] == q by {
                    if q < p {
                        let w = choose|w: int| 0 <= w < pre_dots.len() && #[trigger] pre_dots[w]
                            == q;
                        assert(dots@[w] == q);
                    } else {
                        assert(dots@[dots@.len() - 1] == q);
                    }
                }
            }
        } else {
            let v = c as u32;
            if !(48 <= v && v <= 57) {
                clean = false;
            }
        }
        p = p + 1;
    }
    (dots, clean)
}

/// Checks that the text is a dotted quad: four runs of one to three
/// decimal digits separated by dots. This is a shape check only; it does
/// not bound the runs' values. On success the text itself is handed back.
pub fn host_is_valid(s: &str) -> (r: Result<String, String>)
    ensures
        r is Ok <==> spec_is_dotted_quad(s@),
        r matches Ok(h) ==> h@ == s@,
        r matches Err(m) ==> m@ == "Invalid host"@,
{
    match quad_dots(s) {
        Some(_) => Ok(s.to_owned()),
        None => Err("Invalid host".to_owned()),
    }
}

/// Finds the three dot positions of a dotted quad, or nothing when the
/// text has another shape.
fn quad_dots(s: &str) -> (r: Option<(usize, usize, usize)>)
    ensures
        r is Some <==> spec_is_dotted_quad(s@),
        r matches Some(d) ==> spec_quad_split(s@, d.0 as int, d.1 as int, d.2 as int),
{
    let (dots, clean) = scan(s);

    if !clean || dots.len() != 3 {
        proof {
            if spec_is_dotted_quad(s@) {
                let (i, j, k) = spec_quad_dots(s@);
                assert(spec_quad_split(s@, i, j, k));
                lemma_quad_chars(s@, i, j, k);
                // every dot recorded lies at one of the three positions,
                // every position is recorded once, and the list is sorted,
                // so the scan found exactly three dots
                assert(exists|q: int| 0 <= q < dots@.len() && #[trigger] dots@[q] == i);
                assert(exists|q: int| 0 <= q < dots@.len() && #[trigger] dots@[q] == j);
                assert(exists|q: int| 0 <= q < dots@.len() && #[trigger] dots@[q] == k);
                let qi = choose|q: int| 0 <= q < dots@.len() && #[trigger] dots@[q] == i;
                let qj = choose|q: int| 0 <= q < dots@.len() && #[trigger] dots@[q] == j;
                let qk = choose|q: int| 0 <= q < dots@.len() && #[trigger] dots@[q] == k;
                assert(dots@.len() >= 3);
                if dots@.len() > 3 {
                    assert(dots@[0] < dots@[1] < dots@[2] < dots@[3]);
                    assert(false);
                }
                assert(false);
            }
        }
        return None;
    }

    let d0 = dots[0];
    let d1 = dots[1];
    let d2 = dots[2];
    let len = s.unicode_len();

    let shape_ok = 1 <= d0 && d0 <= 3 && d0 + 1 < d1 && d1 - d0 <= 4 && d1 + 1 < d2 && d2 - d1
        <= 4 && d2 + 1 < len && len - d2 <= 4;

    proof {
        if spec_is_dotted_quad(s@) {
            let (i, j, k) = spec_quad_dots(s@);
            assert(spec_quad_split(s@, i, j, k));
            lemma_quad_chars(s@, i, j, k);
            assert(dots@[0] == i && dots@[1] == j && dots@[2] == k) by {
                assert(exists|q: int| 0 <= q < dots@.len() && #[trigger] dots@[q] == i);
                assert(exists|q: int| 0 <= q < dots@.len() && #[trigger] dots@[q] == j);
                assert(exists|q: int| 0 <= q < dots@.len() && #[trigger] dots@[q] == k);
                let qi = choose|q: int| 0 <= q < dots@.len() && #[trigger] dots@[q] == i;
                let qj = choose|q: int| 0 <= q < dots@.len() && #[trigger] dots@[q] == j;
                let qk = choose|q: int| 0 <= q < dots@.len() && #[trigger] dots@[q] == k;
                assert(qi < qj < qk || !(i < j < k));
            }
            assert(shape_ok);
        }
        if shape_ok {
            assert(spec_quad_split(s@, d0 as int, d1 as int, d2 as int)) by {
                lemma_scan_runs_are_digits(s@, dots@, 0, d0 as int);
                lemma_scan_runs_are_digits(s@, dots@, d0 as int + 1, d1 as int);
                lemma_scan_runs_are_digits(s@, dots@, d1 as int + 1, d2 as int);
                lemma_scan_runs_are_digits(s@, dots@, d2 as int + 1, s@.len() as int);
            }
        }
    }

    if shape_ok {
        Some((d0, d1, d2))
    } else {
        None
    }
}

/// Between recorded dots every character the scan accepted is a digit.
proof fn lemma_scan_runs_are_digits(s: Seq<char>, dots: Seq<usize>, from: int, to: int)
    requires
        0 <= from,
        to <= s.len(),
        dots.len() == 3,
        forall|q: int|
            0 <= q < dots.len() ==> 0 <= #[trigger] dots[q] < s.len()
                && s[dots[q] as int] == '.',
        forall|p: int| 0 <= p < s.len() ==> (spec_is_digit(#[trigger] s[p]) || s[p] == '.'),
        forall|p: int|
            0 <= p < s.len() && s[p] == '.' ==> exists|q: int|
                0 <= q < dots.len() && #[trigger] dots[q] == p,
        from <= dots[0] as int ==> to <= dots[0] as int,
        from <= dots[1] as int ==> to <= dots[1] as int,
        from <= dots[2] as int ==> to <= dots[2] as int,
    ensures
        forall|i: int| 0 <= i < to - from ==> spec_is_digit(#[trigger] s.subrange(from, to)[i]),
{
    assert forall|i: int|
        0 <= i < to - from implies spec_is_digit(#[trigger] s.subrange(from, to)[i]) by {
        let p = from + i;
        assert(s.subrange(from, to)[i] == s[p]);
        if s[p] == '.' {
            let q = choose|q: int| 0 <= q < dots.len() && #[trigger] dots[q] == p;
            assert(q == 0 || q == 1 || q == 2);
            assert(false);
        }
    }
}

/// Parses one digit run of up to three characters.
fn parse_run(s: &str, from: usize, to: usize) -> (v: u16)
    requires
        from <= to <= s@.len(),
        to - from <= 3,
        forall|i: int|
            0 <= i < to - from ==> spec_is_digit(
                #[trigger] s@.subrange(from as int, to as int)[i],
            ),
    ensures
        v == spec_run_val(s@.subrange(from as int, to as int)),
        0 <= v < 1000,
{
    proof {
        lemma_run_val_bounds(s@.subrange(from as int, to as int));
    }
    let mut v: u16 = 0;
    let mut p: usize = from;
    while p < to
        invariant
            from <= p <= to <= s@.len(),
            to - from <= 3,
            forall|i: int|
                0 <= i < to - from ==> spec_is_digit(
                    #[trigger] s@.subrange(from as int, to as int)[i],
                ),
            v == spec_run_val(s@.subrange(from as int, p as int)),
            0 <= v < 1000,
        decreases to - p,
    {
        let c = s.get_char(p);
        proof {
            assert(s@.subrange(from as int, to as int)[p - from] == s@[p as int]);
        }
        let d = (c as u32) - 48;
        proof {
            let prefix = s@.subrange(from as int, p as int + 1);
            assert(prefix.drop_last() =~= s@.subrange(from as int, p as int));
            assert(prefix.last() == s@[p as int]);
            assert(s@.subrange(from as int, to as int)[p - from] == s@[p as int]);
            lemma_run_val_bounds(prefix);
        }
        v = v * 10 + (d as u16);
        p = p + 1;
    }
    v
}

/// Parses the text as a dotted IPv4 quad: four octets, each at most 255.
/// Nothing is returned when the shape is wrong or an octet is out of
/// range.
pub fn parse_host_octets(s: &str) -> (r: Option<(u8, u8, u8, u8)>)
    ensures
        r is Some <==> spec_is_dotted_quad(s@) && (forall|q: int|
            0 <= q < 4 ==> 0 <= #[trigger] spec_octet_vals(s@)[q] <= 255),
        r matches Some(o) ==> {
            let vals = spec_octet_vals(s@);
            &&& o.0 == vals[0]
            &&& o.1 == vals[1]
            &&& o.2 == vals[2]
            &&& o.3 == vals[3]
        },
{
    let dots = match quad_dots(s) {
        Some(d) => d,
        None => {
            return None;
        },
    };
    let (d0, d1, d2) = dots;
    let len = s.unicode_len();
    proof {
        lemma_quad_dots_unique(s@, d0 as int, d1 as int, d2 as int);
    }
    let v0 = parse_run(s, 0, d0);
    let v1 = parse_run(s, d0 + 1, d1);
    let v2 = parse_run(s, d1 + 1, d2);
    let v3 = parse_run(s, d2 + 1, len);
    proof {
        let vals = spec_octet_vals(s@);
        assert(vals[0] == v0 && vals[1] == v1 && vals[2] == v2 && vals[3] == v3);
    }
    if v0 <= 255 && v1 <= 255 && v2 <= 255 && v3 <= 255 {
        Some((v0 as u8, v1 as u8, v2 as u8, v3 as u8))
    } else {
        None
    }
}

} // verus!
