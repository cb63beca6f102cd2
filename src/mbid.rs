use vstd::prelude::*;

verus! {

/// Shape of a well-formed identifier: lower-case hexadecimal groups of 8, 4,
/// 4, 4 and 12 digits.
pub const UUID_PATTERN: &'static str = "[0-9a-f]{8}-[0-9a-f]{4}-[0-9a-f]{4}-[0-9a-f]{4}-[0-9a-f]{12}";

/// The first match of the regular expression `pattern` in `haystack`; none
/// when there is no match or the pattern does not compile.
pub uninterp spec fn regex_first_match(pattern: Seq<char>, haystack: Seq<char>) -> Option<Seq<char>>;

/// `part` occurs in `whole` as a contiguous piece.
pub open spec fn is_infix(part: Seq<char>, whole: Seq<char>) -> bool {
    exists|i: int| 0 <= i && i + part.len() <= whole.len() && #[trigger] whole.subrange(i, i + part.len()) == part
}

pub open spec fn is_lower_hex(c: char) -> bool {
    ('0' <= c && c <= '9') || ('a' <= c && c <= 'f')
}

/// Thirty-six characters: hyphens at 8, 13, 18 and 23, lower-case
/// hexadecimal digits elsewhere.
pub open spec fn uuid_shaped(s: Seq<char>) -> bool {
    &&& s.len() == 36
    &&& forall|k: int|
        0 <= k < 36 ==> if k == 8 || k == 13 || k == 18 || k == 23 {
            #[trigger] s[k] == '-'
        } else {
            is_lower_hex(s[k])
        }
}

/// An identifier-shaped piece of `h` starts at `i`.
pub open spec fn uuid_at(h: Seq<char>, i: int) -> bool {
    0 <= i && i + 36 <= h.len() && uuid_shaped(h.subrange(i, i + 36))
}

/// Relies on regex::Regex::new and regex::Regex::find: the text of the first
/// match, which is a slice of the haystack (Match::as_str). For the fixed
/// identifier pattern, whose matches are all 36 ASCII characters long, the
/// first match is the leftmost identifier-shaped piece.
#[verifier::external_body]
fn first_match(pattern: &str, haystack: &str) -> (r: Option<String>)
    ensures
        match r {
            Some(m) => regex_first_match(pattern@, haystack@) == Some(m@),
            None => regex_first_match(pattern@, haystack@) is None,
        },
        r is Some ==> is_infix(r->Some_0@, haystack@),
        pattern@ == UUID_PATTERN@ ==> match r {
            Some(m) => exists|i: int|
                #![trigger uuid_at(haystack@, i)]
                uuid_at(haystack@, i) && m@ == haystack@.subrange(i, i + 36) && forall|j: int|
                    0 <= j < i ==> !uuid_at(haystack@, j),
            None => forall|i: int| !uuid_at(haystack@, i),
        },
{
    match regex::Regex::new(pattern) {
        Ok(re) => re.find(haystack).map(|m| m.as_str().to_string()),
        Err(_) => None,
    }
}

pub open spec fn opt_view(o: Option<String>) -> Option<Seq<char>> {
    match o {
        Some(s) => Some(s@),
        None => None,
    }
}

/// The present values, in order.
pub open spec fn somes(s: Seq<Option<Seq<char>>>) -> Seq<Seq<char>>
    decreases s.len(),
{
    if s.len() == 0 {
        Seq::empty()
    } else {
        let rest = somes(s.drop_last());
        match s.last() {
            Some(m) => rest.push(m),
            None => rest,
        }
    }
}

proof fn lemma_somes_come_from(s: Seq<Option<Seq<char>>>)
    ensures
        somes(s).len() <= s.len(),
        forall|k: int|
            0 <= k < somes(s).len() ==> exists|j: int| 0 <= j < s.len() && s[j] == Some(#[trigger] somes(s)[k]),
    decreases s.len(),
{
    if s.len() > 0 {
        let init = s.drop_last();
        lemma_somes_come_from(init);
        assert forall|k: int| 0 <= k < somes(s).len() implies exists|j: int|
            0 <= j < s.len() && s[j] == Some(#[trigger] somes(s)[k]) by {
            if k < somes(init).len() {
                let j = choose|j: int| 0 <= j < init.len() && init[j] == Some(somes(init)[k]);
                assert(s[j] == init[j]);
            } else {
                assert(s[s.len() - 1] == Some(somes(s)[k]));
            }
        }
    }
}

/// Keeps the matches that were found, in order.
pub fn keep_matches(found: &Vec<Option<String>>) -> (r: Vec<String>)
    ensures
        r@.map_values(|s: String| s@) == somes(found@.map_values(|o: Option<String>| opt_view(o))),
{
    let ghost all = found@.map_values(|o: Option<String>| opt_view(o));
    let mut r: Vec<String> = Vec::new();
    let mut i: usize = 0;
    while i < found.len()
        invariant
            i <= found@.len(),
            all == found@.map_values(|o: Option<String>| opt_view(o)),
            r@.map_values(|s: String| s@) == somes(all.take(i as int)),
        decreases found@.len() - i,
    {
        let ghost prev = r@;
        proof {
            assert(all.take(i as int + 1).drop_last() =~= all.take(i as int));
            assert(all.take(i as int + 1).last() == opt_view(found@[i as int]));
        }
        match &found[i] {
            Some(m) => {
                r.push(m.clone());
                assert(r@.map_values(|s: String| s@) =~= prev.map_values(|s: String| s@).push(
                    r@[prev.len() as int]@,
                ));
            },
            None => {},
        }
        i = i + 1;
    }
    assert(all.take(i as int) =~= all);
    r
}

/// Identifiers as they go on the wire: for each tag value, its first
/// identifier-shaped piece, and nothing for a value that has none.
pub open spec fn wire_mbids_spec(mbids: Seq<Seq<char>>) -> Seq<Seq<char>> {
    somes(mbids.map_values(|m: Seq<char>| regex_first_match(UUID_PATTERN@, m)))
}

/// Cleans artist identifiers for submission: every identifier sent is
/// well-formed and cut from one of the tag values.
pub fn wire_artist_mbids(mbids: &Vec<String>) -> (r: Vec<String>)
    ensures
        r@.map_values(|s: String| s@) == wire_mbids_spec(mbids@.map_values(|s: String| s@)),
        r@.len() <= mbids@.len(),
        forall|k: int| 0 <= k < r@.len() ==> uuid_shaped(#[trigger] r@[k]@),
        forall|k: int|
            0 <= k < r@.len() ==> exists|j: int| 0 <= j < mbids@.len() && is_infix(#[trigger] r@[k]@, mbids@[j]@),
{
    let mut found: Vec<Option<String>> = Vec::new();
    let mut i: usize = 0;
    while i < mbids.len()
        invariant
            i <= mbids@.len(),
            found@.len() == i,
            forall|k: int|
                0 <= k < i ==> opt_view(#[trigger] found@[k]) == regex_first_match(UUID_PATTERN@, mbids@[k]@),
            forall|k: int|
                0 <= k < i && (#[trigger] found@[k]) is Some ==> uuid_shaped(found@[k]->Some_0@)
                    && is_infix(found@[k]->Some_0@, mbids@[k]@),
        decreases mbids@.len() - i,
    {
        let m = first_match(UUID_PATTERN, mbids[i].as_str());
        proof {
            if m is Some {
                let h = mbids@[i as int]@;
                let w = choose|x: int| uuid_at(h, x) && m->Some_0@ == h.subrange(x, x + 36) && forall|j: int|
                    0 <= j < x ==> !uuid_at(h, j);
                assert(uuid_at(h, w));
            }
        }
        found.push(m);
        i = i + 1;
    }
    let r = keep_matches(&found);
    proof {
        let opts = found@.map_values(|o: Option<String>| opt_view(o));
        assert(opts =~= mbids@.map_values(|s: String| s@).map_values(
            |m: Seq<char>| regex_first_match(UUID_PATTERN@, m),
        ));
        lemma_somes_come_from(opts);
        assert forall|k: int| 0 <= k < r@.len() implies uuid_shaped(#[trigger] r@[k]@) && exists|j: int|
            0 <= j < mbids@.len() && is_infix(r@[k]@, mbids@[j]@) by {
            assert(r@.map_values(|s: String| s@)[k] == r@[k]@);
            let j = choose|j: int| 0 <= j < opts.len() && opts[j] == Some(somes(opts)[k]);
            assert(opts[j] == opt_view(found@[j]));
        }
    }
    r
}

} // verus!
