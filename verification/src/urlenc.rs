//! Call targets and form bodies through the URL library.
//!
//! The URL library owns percent-encoding and URL syntax. Its `Url` value is
//! opaque here, so the contracts speak of it through three names — whether
//! it can be a base, its path segments, and its decoded query pairs — and
//! each wrapper states what the library's source shows of them. The
//! composition of a form body out of encoded components is verified against
//! the byte-serializer the library itself uses for each component.

use vstd::prelude::*;
use vstd::string::StringExecFns;

use crate::strutil::{segs_view, spec_join_sep};

verus! {

#[verifier::external_type_specification]
#[verifier::external_body]
pub struct ExUrl(url::Url);

#[verifier::external_type_specification]
#[verifier::external_body]
pub struct ExUrlParseError(url::ParseError);

/// Whether the URL can be a base: `url::Url::cannot_be_a_base` is false.
/// Only such a URL has path segments to build on.
pub uninterp spec fn url_is_base(u: url::Url) -> bool;

/// The URL's path segments, as `url::Url::path_segments` yields them (the
/// root path is the single empty segment).
pub uninterp spec fn url_path_of(u: url::Url) -> Seq<Seq<char>>;

/// The URL's query pairs, decoded, in order, as `url::Url::query_pairs`
/// yields them; empty when the URL has no query.
pub uninterp spec fn url_query_of(u: url::Url) -> Seq<(Seq<char>, Seq<char>)>;

/// What `url::PathSegmentsMut::push` appends for a segment: the segment
/// percent-encoded in the library's path-segment encode set, a function of
/// the characters alone for the plain segments `seg_plain` admits.
pub uninterp spec fn path_encoded_seg(s: Seq<char>) -> Seq<char>;

/// The decoded query pairs of the URL a string parses to, a function of
/// the string alone.
pub uninterp spec fn parsed_url_query(s: Seq<char>) -> Seq<(Seq<char>, Seq<char>)>;

/// Whether a string parses as an absolute URL, a function of the string
/// alone.
pub uninterp spec fn url_text_parses(s: Seq<char>) -> bool;

/// Whether the URL a string parses to can be a base, a function of the
/// string alone.
pub uninterp spec fn parsed_url_is_base(s: Seq<char>) -> bool;

/// A segment on which `url::PathSegmentsMut::push` acts uniformly: not one
/// of the dot segments the library skips; free of the characters it drops
/// (tab, newlines) or encodes differently per scheme (backslash); and not
/// shaped like a Windows drive letter (two characters ending in a colon or
/// a pipe), which the library rewrites on file URLs.
pub open spec fn seg_plain(s: Seq<char>) -> bool {
    &&& s != "."@
    &&& s != ".."@
    &&& !(s.len() == 2 && (s[1] == ':' || s[1] == '|'))
    &&& forall|i: int|
        0 <= i < s.len() ==> s[i] != '\\' && s[i] != '\t' && s[i] != '\n' && s[i] != '\r'
}

/// Every segment is plain.
pub open spec fn segs_plain(segs: Seq<Seq<char>>) -> bool {
    forall|i: int| 0 <= i < segs.len() ==> seg_plain(segs[i])
}

/// How one pushed segment changes the path: it replaces the root path's
/// single empty segment, and is appended after any other path.
pub open spec fn push_seg(base: Seq<Seq<char>>, s: Seq<char>) -> Seq<Seq<char>> {
    if base == seq![Seq::<char>::empty()] {
        seq![path_encoded_seg(s)]
    } else {
        base.push(path_encoded_seg(s))
    }
}

/// The path after pushing each segment in order.
pub open spec fn appended_path(base: Seq<Seq<char>>, segs: Seq<Seq<char>>) -> Seq<Seq<char>>
    decreases segs.len(),
{
    if segs.len() == 0 {
        base
    } else {
        appended_path(push_seg(base, segs[0]), segs.drop_first())
    }
}

/// Appending the segments one by one is appending them all at once.
pub proof fn lemma_appended_path_push(base: Seq<Seq<char>>, segs: Seq<Seq<char>>, x: Seq<char>)
    ensures
        appended_path(base, segs.push(x)) == push_seg(appended_path(base, segs), x),
    decreases segs.len(),
{
    if segs.len() == 0 {
        let t = segs.push(x);
        assert(t.len() == 1);
        assert(t[0] == x);
        assert(t.drop_first() =~= Seq::<Seq<char>>::empty());
        assert(appended_path(base, t) == appended_path(push_seg(base, t[0]), t.drop_first()));
        assert(appended_path(push_seg(base, x), t.drop_first()) == push_seg(base, x));
    } else {
        assert(segs.push(x).drop_first() =~= segs.drop_first().push(x));
        assert(segs.push(x)[0] == segs[0]);
        lemma_appended_path_push(push_seg(base, segs[0]), segs.drop_first(), x);
    }
}

/// Relies on url::Url::parse: parses an absolute URL deterministically,
/// keeping any query the string holds; an invalid address is reported as
/// the error.
#[verifier::external_body]
pub fn url_parse(input: &str) -> (r: Result<url::Url, url::ParseError>)
    ensures
        r is Ok <==> url_text_parses(input@),
        r matches Ok(u) ==> url_is_base(u) == parsed_url_is_base(input@) && url_query_of(u)
            == parsed_url_query(input@),
{
    url::Url::parse(input)
}

/// Relies on url::Url::cannot_be_a_base: whether the URL can serve as a
/// base whose path is built from segments.
#[verifier::external_body]
pub fn url_can_be_base(url: &url::Url) -> (r: bool)
    ensures
        r == url_is_base(*url),
{
    !url.cannot_be_a_base()
}

/// Relies on url::Url::path_segments_mut and url::PathSegmentsMut::clear:
/// removes every path segment, leaving the minimal root path and the query
/// untouched. A URL that cannot be a base is left unchanged.
#[verifier::external_body]
pub fn url_clear_path(url: &mut url::Url)
    ensures
        url_is_base(*old(url)) ==> url_path_of(*final(url)) == seq![Seq::<char>::empty()],
        !url_is_base(*old(url)) ==> url_path_of(*final(url)) == url_path_of(*old(url)),
        url_query_of(*final(url)) == url_query_of(*old(url)),
        url_is_base(*final(url)) == url_is_base(*old(url)),
{
    if let Ok(mut segments) = url.path_segments_mut() {
        segments.clear();
    }
}

/// Relies on url::Url::path_segments_mut and url::PathSegmentsMut::push:
/// appends one path segment, percent-encoded by the library, leaving the
/// query untouched. A URL that cannot be a base is left unchanged; what
/// the library does with dot segments or characters it drops is left
/// unstated.
#[verifier::external_body]
pub fn url_push_path_segment(url: &mut url::Url, segment: &str)
    ensures
        url_is_base(*old(url)) && seg_plain(segment@) ==> url_path_of(*final(url)) == (
        if url_path_of(*old(url)) == seq![Seq::<char>::empty()] {
            seq![path_encoded_seg(segment@)]
        } else {
            url_path_of(*old(url)).push(path_encoded_seg(segment@))
        }),
        !url_is_base(*old(url)) ==> url_path_of(*final(url)) == url_path_of(*old(url)),
        url_query_of(*final(url)) == url_query_of(*old(url)),
        url_is_base(*final(url)) == url_is_base(*old(url)),
{
    if let Ok(mut segments) = url.path_segments_mut() {
        segments.push(segment);
    }
}

/// Relies on url::Url::query_pairs_mut and
/// form_urlencoded::Serializer::append_pair: appends exactly one query
/// pair, form-urlencoded by the library (so the decoded query gains the
/// pair unchanged), leaving the path untouched.
#[verifier::external_body]
pub fn url_append_query_pair(url: &mut url::Url, key: &str, value: &str)
    ensures
        url_query_of(*final(url)) == url_query_of(*old(url)).push((key@, value@)),
        url_path_of(*final(url)) == url_path_of(*old(url)),
        url_is_base(*final(url)) == url_is_base(*old(url)),
{
    url.query_pairs_mut().append_pair(key, value);
}

/// What form_urlencoded::byte_serialize returns for a string: its
/// `application/x-www-form-urlencoded` percent-encoding, a function of the
/// characters alone.
pub uninterp spec fn form_encoded_str(s: Seq<char>) -> Seq<char>;

/// Relies on form_urlencoded::byte_serialize: percent-encodes one form
/// component; the result depends on the characters alone.
#[verifier::external_body]
fn form_encode_component(s: &str) -> (r: String)
    ensures
        r@ == form_encoded_str(s@),
{
    url::form_urlencoded::byte_serialize(s.as_bytes()).collect()
}

/// One encoded `key=value` form pair.
pub open spec fn spec_encoded_pair(p: (Seq<char>, Seq<char>)) -> Seq<char> {
    form_encoded_str(p.0) + seq!['='] + form_encoded_str(p.1)
}

/// The encoded forms of a pair sequence, in order.
pub open spec fn spec_encoded_pairs(pairs: Seq<(Seq<char>, Seq<char>)>) -> Seq<Seq<char>> {
    pairs.map_values(|p: (Seq<char>, Seq<char>)| spec_encoded_pair(p))
}

/// The encoded form body of a pair sequence: the encoded pairs joined
/// by ampersands, in order.
pub open spec fn spec_form_body(pairs: Seq<(Seq<char>, Seq<char>)>) -> Seq<char> {
    spec_join_sep(spec_encoded_pairs(pairs), "&"@)
}

/// The views of a pair-of-strings sequence.
pub open spec fn pairs_view(v: Seq<(String, String)>) -> Seq<(Seq<char>, Seq<char>)> {
    v.map_values(|p: (String, String)| (p.0@, p.1@))
}

/// Encodes an ordered sequence of pairs as an
/// `application/x-www-form-urlencoded` body.
pub fn encode_form(pairs: &Vec<(String, String)>) -> (r: String)
    ensures
        r@ == spec_form_body(pairs_view(pairs@)),
{
    let mut components: Vec<String> = Vec::new();
    let mut i: usize = 0;
    while i < pairs.len()
        invariant
            i <= pairs.len(),
            segs_view(components@) =~= spec_encoded_pairs(pairs_view(pairs@).take(i as int)),
        decreases pairs.len() - i,
    {
        let mut c = form_encode_component(pairs[i].0.as_str());
        c.append("=");
        c.append(form_encode_component(pairs[i].1.as_str()).as_str());
        proof {
            reveal_strlit("=");
            assert(c@ =~= spec_encoded_pair(pairs_view(pairs@)[i as int]));
        }
        let ghost pre = components@;
        components.push(c);
        proof {
            let pv = pairs_view(pairs@);
            assert(segs_view(pre).len() == pre.len());
            assert(pre.len() == i as int);
            assert(pv.take(i + 1) =~= pv.take(i as int).push(pv[i as int]));
            assert(segs_view(components@) =~= spec_encoded_pairs(pv.take(i + 1))) by {
                assert forall|j: int| 0 <= j < i + 1 implies segs_view(components@)[j]
                    == spec_encoded_pairs(pv.take(i + 1))[j] by {
                    if j < i {
                        assert(segs_view(components@)[j] == pre[j]@);
                        assert(segs_view(pre)[j] == pre[j]@);
                        assert(spec_encoded_pairs(pv.take(i as int))[j] == spec_encoded_pair(
                            pv.take(i as int)[j],
                        ));
                        assert(spec_encoded_pairs(pv.take(i + 1))[j] == spec_encoded_pair(
                            pv.take(i + 1)[j],
                        ));
                        assert(pv.take(i + 1)[j] == pv.take(i as int)[j]);
                    } else {
                        assert(segs_view(components@)[j] == c@);
                        assert(spec_encoded_pairs(pv.take(i + 1))[j] == spec_encoded_pair(
                            pv[i as int],
                        ));
                    }
                }
            }
        }
        i = i + 1;
    }
    proof {
        assert(pairs_view(pairs@).take(pairs@.len() as int) =~= pairs_view(pairs@));
    }
    crate::strutil::join_sep(&components, "&")
}

} // verus!
