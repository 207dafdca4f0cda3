//! Conformance scan of rendered interchange text: the text is split at `~`
//! terminators, each piece is trimmed (of the four ASCII whitespace
//! characters), and the segment identifier is the part before the first
//! `*`. The scan reports which of the twelve required segment identifiers
//! are present.

use vstd::prelude::*;

verus! {

/// The whitespace characters the trim removes.
pub open spec fn ws(c: char) -> bool {
    c == ' ' || c == '\t' || c == '\n' || c == '\r'
}

/// Index of the first occurrence of `c` at or after `i`, or the length.
pub open spec fn find_char_from(s: Seq<char>, c: char, i: int) -> int
    decreases s.len() - i,
{
    if i < 0 || i >= s.len() {
        s.len() as int
    } else if s[i] == c {
        i
    } else {
        find_char_from(s, c, i + 1)
    }
}

/// Index of the first non-whitespace character at or after `i`, or the
/// length.
pub open spec fn first_non_ws(s: Seq<char>, i: int) -> int
    decreases s.len() - i,
{
    if i < 0 || i >= s.len() {
        s.len() as int
    } else if !ws(s[i]) {
        i
    } else {
        first_non_ws(s, i + 1)
    }
}

/// One past the last non-whitespace character strictly below `i`, or zero.
pub open spec fn last_non_ws_end(s: Seq<char>, i: int) -> int
    decreases i,
{
    if i <= 0 {
        0
    } else if !ws(s[i - 1]) {
        i
    } else {
        last_non_ws_end(s, i - 1)
    }
}

/// `s` with leading and trailing whitespace removed.
pub open spec fn trim_spec(s: Seq<char>) -> Seq<char> {
    let a = first_non_ws(s, 0);
    let b = last_non_ws_end(s, s.len() as int);
    if a < b {
        s.subrange(a, b)
    } else {
        Seq::<char>::empty()
    }
}

/// The segment identifier of a trimmed piece: everything before the first
/// `*`.
pub open spec fn id_of(chunk: Seq<char>) -> Seq<char> {
    chunk.take(find_char_from(chunk, '*', 0))
}

/// The set of segment identifiers present in the text: one per non-empty
/// trimmed `~`-terminated piece.
pub open spec fn ids_from(s: Seq<char>) -> Set<Seq<char>>
    decreases s.len(),
{
    if s.len() == 0 {
        Set::<Seq<char>>::empty()
    } else {
        let t = find_char_from(s, '~', 0);
        let chunk = s.take(t);
        let rest = if 0 <= t < s.len() {
            s.skip(t + 1)
        } else {
            Seq::<char>::empty()
        };
        let tr = trim_spec(chunk);
        if tr.len() == 0 {
            ids_from(rest)
        } else {
            ids_from(rest).insert(id_of(tr))
        }
    }
}

/// `find_char_from` stays within bounds.
proof fn lemma_find_char_bounds(s: Seq<char>, c: char, i: int)
    requires
        0 <= i <= s.len(),
    ensures
        i <= find_char_from(s, c, i) <= s.len(),
    decreases s.len() - i,
{
    if i < s.len() && s[i] != c {
        lemma_find_char_bounds(s, c, i + 1);
    }
}

/// The required segment identifiers, in report order.
pub open spec fn required_ids_spec() -> Seq<Seq<char>> {
    seq![
        "ISA"@,
        "GS"@,
        "ST"@,
        "BPR"@,
        "TRN"@,
        "DTM"@,
        "N1"@,
        "CLP"@,
        "SVC"@,
        "SE"@,
        "GE"@,
        "IEA"@,
    ]
}

/// How many of the required identifiers from position `i` on lie in `ids`.
pub open spec fn count_found(req: Seq<Seq<char>>, ids: Set<Seq<char>>, i: int) -> int
    decreases req.len() - i,
{
    if i < 0 || i >= req.len() {
        0
    } else {
        (if ids.contains(req[i]) {
            1int
        } else {
            0int
        }) + count_found(req, ids, i + 1)
    }
}

/// The set of strings a list holds, by their text.
pub open spec fn views_of(v: Seq<String>) -> Set<Seq<char>> {
    Set::new(
        |s: Seq<char>| exists|i: int| 0 <= i < v.len() && (#[trigger] v[i])@ == s,
    )
}

/// What one conformance scan reports.
#[derive(Debug, Clone)]
pub struct ConformanceResult {
    /// The distinct segment identifiers present in the text.
    pub present: Vec<String>,
    /// How many of the required identifiers are present.
    pub found: usize,
    /// How many identifiers are required.
    pub total: usize,
}

/// Whether the character is trimmed whitespace.
fn is_ws_char(c: char) -> (b: bool)
    ensures
        b == ws(c),
{
    c == ' ' || c == '\t' || c == '\n' || c == '\r'
}

/// Finds the first occurrence of `c` at or after `from`, or the length.
fn find_char(s: &str, c: char, from: usize) -> (r: usize)
    requires
        from <= s@.len(),
    ensures
        r == find_char_from(s@, c, from as int),
        from <= r <= s@.len(),
{
    let n = s.unicode_len();
    let mut i: usize = from;
    while i < n
        invariant
            from <= i <= n,
            n == s@.len(),
            find_char_from(s@, c, from as int) == find_char_from(s@, c, i as int),
        decreases n - i,
    {
        if s.get_char(i) == c {
            return i;
        }
        i = i + 1;
    }
    n
}

/// Trims leading and trailing whitespace.
fn trim_str(s: &str) -> (r: String)
    ensures
        r@ == trim_spec(s@),
{
    let n = s.unicode_len();
    let mut a: usize = 0;
    while a < n && is_ws_char(s.get_char(a))
        invariant
            0 <= a <= n,
            n == s@.len(),
            first_non_ws(s@, 0) == first_non_ws(s@, a as int),
        decreases n - a,
    {
        a = a + 1;
    }
    let mut b: usize = n;
    while b > 0 && is_ws_char(s.get_char(b - 1))
        invariant
            0 <= b <= n,
            n == s@.len(),
            last_non_ws_end(s@, n as int) == last_non_ws_end(s@, b as int),
        decreases b,
    {
        b = b - 1;
    }
    proof {
        assert(first_non_ws(s@, 0) == a as int);
        assert(last_non_ws_end(s@, n as int) == b as int);
    }
    if a < b {
        String::from_str(s.substring_char(a, b))
    } else {
        let r = String::new();
        assert(r@ =~= trim_spec(s@));
        r
    }
}

/// Whether some list entry reads the same as `x`.
fn contains_str(v: &Vec<String>, x: &String) -> (b: bool)
    ensures
        b == views_of(v@).contains(x@),
{
    let mut k: usize = 0;
    while k < v.len()
        invariant
            k <= v@.len(),
            forall|i: int| 0 <= i < k ==> (#[trigger] v@[i])@ != x@,
        decreases v@.len() - k,
    {
        if v[k].eq(x) {
            assert(views_of(v@).contains(x@)) by {
                assert(v@[k as int]@ == x@);
            }
            return true;
        }
        k = k + 1;
    }
    assert(!views_of(v@).contains(x@));
    false
}

/// The required identifiers as strings, in report order.
pub fn required_segment_ids() -> (r: Vec<String>)
    ensures
        r@.len() == 12,
        forall|i: int| 0 <= i < 12 ==> (#[trigger] r@[i])@ == required_ids_spec()[i],
{
    let mut r: Vec<String> = Vec::new();
    r.push(String::from_str("ISA"));
    r.push(String::from_str("GS"));
    r.push(String::from_str("ST"));
    r.push(String::from_str("BPR"));
    r.push(String::from_str("TRN"));
    r.push(String::from_str("DTM"));
    r.push(String::from_str("N1"));
    r.push(String::from_str("CLP"));
    r.push(String::from_str("SVC"));
    r.push(String::from_str("SE"));
    r.push(String::from_str("GE"));
    r.push(String::from_str("IEA"));
    r
}

/// Scans rendered interchange text for the required segment identifiers:
/// reports the distinct identifiers present and how many of the twelve
/// required ones are among them.
pub fn compute_conformance(content: &str) -> (r: ConformanceResult)
    ensures
        r.total == 12,
        views_of(r.present@) == ids_from(content@),
        forall|i: int, j: int|
            0 <= i < r.present@.len() && 0 <= j < r.present@.len() && i != j ==> (
            #[trigger] r.present@[i])@ != (#[trigger] r.present@[j])@,
        r.found == count_found(required_ids_spec(), ids_from(content@), 0),
{
    let mut present: Vec<String> = Vec::new();
    let mut rem: &str = content;
    proof {
        assert(views_of(present@) =~= Set::<Seq<char>>::empty());
        assert(views_of(present@).union(ids_from(content@)) =~= ids_from(content@));
    }
    loop
        invariant
            views_of(present@).union(ids_from(rem@)) == ids_from(content@),
            forall|i: int, j: int|
                0 <= i < present@.len() && 0 <= j < present@.len() && i != j ==> (
                #[trigger] present@[i])@ != (#[trigger] present@[j])@,
        ensures
            views_of(present@) == ids_from(content@),
            forall|i: int, j: int|
                0 <= i < present@.len() && 0 <= j < present@.len() && i != j ==> (
                #[trigger] present@[i])@ != (#[trigger] present@[j])@,
        decreases rem@.len(),
    {
        let n = rem.unicode_len();
        if n == 0 {
            proof {
                assert(ids_from(rem@) =~= Set::<Seq<char>>::empty());
                assert(views_of(present@) =~= views_of(present@).union(ids_from(rem@)));
            }
            break ;
        }
        let ghost rem0 = rem@;
        let t = find_char(rem, '~', 0);
        let chunk = rem.substring_char(0, t);
        proof {
            assert(chunk@ =~= rem0.take(t as int));
        }
        let tr = trim_str(chunk);
        let ghost added = views_of(present@);
        if tr.as_str().unicode_len() > 0 {
            proof {
                lemma_find_char_bounds(tr@, '*', 0);
            }
            let star = find_char(tr.as_str(), '*', 0);
            let id = String::from_str(tr.as_str().substring_char(0, star));
            proof {
                assert(id@ =~= id_of(trim_spec(rem0.take(t as int))));
            }
            if !contains_str(&present, &id) {
                let ghost p0 = present@;
                present.push(id);
                proof {
                    assert(views_of(present@) =~= views_of(p0).insert(
                        id_of(trim_spec(rem0.take(t as int))),
                    )) by {
                        assert forall|x: Seq<char>|
                            views_of(present@).contains(x) implies views_of(p0).insert(
                            id_of(trim_spec(rem0.take(t as int))),
                        ).contains(x) by {
                            let i = choose|i: int|
                                0 <= i < present@.len() && (#[trigger] present@[i])@ == x;
                            if i < present@.len() - 1 {
                                assert(p0[i]@ == x);
                            }
                        }
                        assert forall|x: Seq<char>|
                            views_of(p0).insert(id_of(trim_spec(rem0.take(t as int)))).contains(
                            x,
                        ) implies views_of(present@).contains(x) by {
                            if x == id_of(trim_spec(rem0.take(t as int))) {
                                assert(present@[present@.len() - 1]@ == x);
                            } else {
                                let i = choose|i: int|
                                    0 <= i < p0.len() && (#[trigger] p0[i])@ == x;
                                assert(present@[i]@ == x);
                            }
                        }
                    }
                }
            } else {
                proof {
                    assert(views_of(present@) =~= views_of(present@).insert(
                        id_of(trim_spec(rem0.take(t as int))),
                    ));
                }
            }
        }
        if t < n {
            rem = rem.substring_char(t + 1, n);
            proof {
                assert(rem@ =~= rem0.skip(t as int + 1));
            }
        } else {
            rem = rem.substring_char(n, n);
            proof {
                assert(rem@ =~= Seq::<char>::empty());
            }
        }
        proof {
            assert(views_of(present@).union(ids_from(rem@)) =~= ids_from(content@));
        }
    }
    let required = required_segment_ids();
    let ghost idset = ids_from(content@);
    let mut found: usize = 0;
    let mut k: usize = 0;
    while k < required.len()
        invariant
            k <= required@.len(),
            required@.len() == 12,
            forall|i: int| 0 <= i < 12 ==> (#[trigger] required@[i])@ == required_ids_spec()[i],
            views_of(present@) == idset,
            found <= k,
            count_found(required_ids_spec(), idset, 0) == found + count_found(
                required_ids_spec(),
                idset,
                k as int,
            ),
        decreases required@.len() - k,
    {
        if contains_str(&present, &required[k]) {
            found = found + 1;
        }
        k = k + 1;
    }
    ConformanceResult { present, found, total: 12 }
}

} // verus!
