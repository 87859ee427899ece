//! Zenoh key expressions for uProtocol addresses.
//!
//! A message from a source to a sink travels on the key
//!
//! ```text
//! up/[authority]/[type]/[instance]/[version]/[resource]/[authority]/[type]/[instance]/[version]/[resource]
//! ```
//!
//! where the first five parts are those of the source and the last five those of the
//! sink. Numbers are written in upper case hexadecimal, wildcards as `*`, and each part
//! of a sink that is not there as `{}`.
use crate::text;
use crate::uri::{UUri, UriView};
use vstd::prelude::*;

verus! {

/// The chunks of a key, with a separator between each two of them.
pub open spec fn joined(chunks: Seq<Seq<char>>) -> Seq<char>
    decreases chunks.len(),
{
    if chunks.len() == 0 {
        Seq::empty()
    } else if chunks.len() == 1 {
        chunks[0]
    } else {
        joined(chunks.drop_last()) + seq!['/'] + chunks.last()
    }
}

/// The chunk for a number, or for a wildcard in its place.
pub open spec fn number_chunk(n: nat, any: bool) -> Seq<char> {
    if any {
        seq!['*']
    } else {
        text::numeral(n, 16, true)
    }
}

/// The authority of a URI, where a URI without one belongs to the local authority.
pub open spec fn resolved_authority(local: Seq<char>, uri: UriView) -> Seq<char> {
    if uri.local() {
        local
    } else {
        uri.authority_name
    }
}

/// The chunks for one URI.
pub open spec fn uri_chunks(local: Seq<char>, uri: UriView) -> Seq<Seq<char>> {
    seq![
        resolved_authority(local, uri),
        number_chunk(uri.entity_type(), uri.any_type()),
        number_chunk(uri.entity_instance(), uri.any_instance()),
        number_chunk(uri.version(), uri.any_version()),
        number_chunk(uri.resource(), uri.any_resource()),
    ]
}

/// The chunk that stands for each part of a missing sink.
pub open spec fn missing_chunk() -> Seq<char> {
    seq!['{', '}']
}

/// The chunks for an optional sink.
pub open spec fn sink_chunks(local: Seq<char>, sink: Option<UriView>) -> Seq<Seq<char>> {
    match sink {
        Some(uri) => uri_chunks(local, uri),
        None => seq![
            missing_chunk(),
            missing_chunk(),
            missing_chunk(),
            missing_chunk(),
            missing_chunk(),
        ],
    }
}

/// The chunks of the key for a source and an optional sink.
pub open spec fn key_chunks(local: Seq<char>, source: UriView, sink: Option<UriView>) -> Seq<
    Seq<char>,
> {
    seq![seq!['u', 'p']] + uri_chunks(local, source) + sink_chunks(local, sink)
}

/// The key for a source and an optional sink.
pub open spec fn zenoh_key(local: Seq<char>, source: UriView, sink: Option<UriView>) -> Seq<char> {
    joined(key_chunks(local, source, sink))
}

proof fn lemma_joined_push(chunks: Seq<Seq<char>>, chunk: Seq<char>)
    requires
        chunks.len() > 0,
    ensures
        joined(chunks.push(chunk)) == joined(chunks) + seq!['/'] + chunk,
{
    assert(chunks.push(chunk).drop_last() =~= chunks);
}

/// Appends a chunk to a key.
fn push_chunk(key: &mut String, chunk: &str)
    ensures
        final(key)@ == old(key)@ + seq!['/'] + chunk@,
{
    proof {
        reveal_strlit("/");
    }
    assert("/"@ =~= seq!['/']);
    key.append("/");
    key.append(chunk);
}

/// Appends the chunk for a number, or for a wildcard in its place.
fn push_number(key: &mut String, n: u16, any: bool)
    ensures
        final(key)@ == old(key)@ + seq!['/'] + number_chunk(n as nat, any),
{
    if any {
        proof {
            reveal_strlit("*");
        }
        assert("*"@ =~= seq!['*']);
        push_chunk(key, "*");
    } else {
        push_chunk(key, text::to_numeral(n as u64, 16, true).as_str());
    }
}

/// The part of a key that stands for one URI.
pub fn uri_to_zenoh_key(local_uri: &UUri, uri: &UUri) -> (key: String)
    ensures
        key@ == joined(uri_chunks(local_uri.authority_name@, uri@)),
{
    let ghost chunks = uri_chunks(local_uri.authority_name@, uri@);
    let mut key = if uri.has_empty_authority() {
        local_uri.authority_name.clone()
    } else {
        uri.authority_name.clone()
    };
    push_number(&mut key, uri.uentity_type_id(), uri.has_wildcard_entity_type());
    push_number(&mut key, uri.uentity_instance_id(), uri.has_wildcard_entity_instance());
    push_number(&mut key, uri.uentity_major_version() as u16, uri.has_wildcard_version());
    push_number(&mut key, uri.resource(), uri.has_wildcard_resource_id());
    proof {
        let s1 = seq![chunks[0]];
        let s2 = s1.push(chunks[1]);
        let s3 = s2.push(chunks[2]);
        let s4 = s3.push(chunks[3]);
        let s5 = s4.push(chunks[4]);
        lemma_joined_push(s1, chunks[1]);
        lemma_joined_push(s2, chunks[2]);
        lemma_joined_push(s3, chunks[3]);
        lemma_joined_push(s4, chunks[4]);
        assert(s5 =~= chunks);
    }
    key
}

proof fn lemma_joined_concat(first: Seq<Seq<char>>, second: Seq<Seq<char>>)
    requires
        first.len() > 0,
        second.len() > 0,
    ensures
        joined(first + second) == joined(first) + seq!['/'] + joined(second),
    decreases second.len(),
{
    let all = first + second;
    assert(all.last() == second.last());
    assert(all.drop_last() =~= first + second.drop_last());
    if second.len() == 1 {
        assert(all.drop_last() =~= first);
    } else {
        lemma_joined_concat(first, second.drop_last());
        assert(joined(all) =~= joined(first) + seq!['/'] + joined(second));
    }
}

proof fn lemma_missing_joined()
    ensures
        joined(sink_chunks(Seq::empty(), None)) == "{}/{}/{}/{}/{}"@,
{
    reveal_strlit("{}/{}/{}/{}/{}");
    reveal_with_fuel(joined, 5);
    assert(joined(sink_chunks(Seq::empty(), None)) =~= "{}/{}/{}/{}/{}"@);
}

/// The key expression for messages, or for a filter of messages, from a source to a sink.
pub fn to_zenoh_key_string(local_uri: &UUri, src_uri: &UUri, dst_uri: Option<&UUri>) -> (key:
    String)
    ensures
        key@ == zenoh_key(local_uri.authority_name@, src_uri@, crate::uri::opt_uri(dst_uri)),
{
    let src = uri_to_zenoh_key(local_uri, src_uri);
    let dst = match dst_uri {
        Some(dst) => uri_to_zenoh_key(local_uri, dst),
        None => {
            proof {
                lemma_missing_joined();
            }
            "{}/{}/{}/{}/{}".to_string()
        },
    };
    let mut key = "up".to_string();
    push_chunk(&mut key, src.as_str());
    push_chunk(&mut key, dst.as_str());
    proof {
        reveal_strlit("up");
        let local = local_uri.authority_name@;
        let root: Seq<Seq<char>> = seq![seq!['u', 'p']];
        let source_part = uri_chunks(local, src_uri@);
        let sink_part = sink_chunks(local, crate::uri::opt_uri(dst_uri));
        assert("up"@ =~= joined(root));
        lemma_joined_concat(root, source_part);
        lemma_joined_concat(root + source_part, sink_part);
    }
    key
}

/// A URI without an authority has the key of the same URI with the local authority, and
/// for any other URI the local authority is of no influence.
pub proof fn law_missing_authority_is_local(
    local: Seq<char>,
    other_local: Seq<char>,
    uri: UriView,
)
    ensures
        uri.local() ==> uri_chunks(local, uri) == uri_chunks(
            local,
            UriView { authority_name: local, ..uri },
        ),
        uri.local() && local.len() > 0 ==> uri_chunks(local, uri) == uri_chunks(
            other_local,
            UriView { authority_name: local, ..uri },
        ),
        !uri.local() ==> uri_chunks(local, uri) == uri_chunks(other_local, uri),
{
    let resolved = UriView { authority_name: local, ..uri };
    assert(uri.local() ==> uri_chunks(local, uri) =~= uri_chunks(local, resolved));
    assert(uri.local() && local.len() > 0 ==> uri_chunks(local, uri) =~= uri_chunks(
        other_local,
        resolved,
    ));
    assert(!uri.local() ==> uri_chunks(local, uri) =~= uri_chunks(other_local, uri));
}

/// Each number of a URI stands in its own chunk of the key: as `*` exactly if it is a
/// wildcard, and else in upper case hexadecimal without a prefix and without padding.
pub proof fn law_chunks_show_numbers_and_wildcards(local: Seq<char>, uri: UriView)
    ensures
        uri_chunks(local, uri).len() == 5,
        uri_chunks(local, uri)[1] == seq!['*'] <==> uri.any_type(),
        !uri.any_type() ==> uri_chunks(local, uri)[1] == text::numeral(
            uri.entity_type(),
            16,
            true,
        ),
        uri_chunks(local, uri)[2] == seq!['*'] <==> uri.any_instance(),
        !uri.any_instance() ==> uri_chunks(local, uri)[2] == text::numeral(
            uri.entity_instance(),
            16,
            true,
        ),
        uri_chunks(local, uri)[3] == seq!['*'] <==> uri.any_version(),
        !uri.any_version() ==> uri_chunks(local, uri)[3] == text::numeral(
            uri.version(),
            16,
            true,
        ),
        uri_chunks(local, uri)[4] == seq!['*'] <==> uri.any_resource(),
        !uri.any_resource() ==> uri_chunks(local, uri)[4] == text::numeral(
            uri.resource(),
            16,
            true,
        ),
{
    lemma_number_chunk(uri.entity_type(), uri.any_type());
    lemma_number_chunk(uri.entity_instance(), uri.any_instance());
    lemma_number_chunk(uri.version(), uri.any_version());
    lemma_number_chunk(uri.resource(), uri.any_resource());
}

/// Whether the chunks can be told apart again once they are joined.
pub open spec fn separable(chunks: Seq<Seq<char>>) -> bool {
    &&& chunks.len() > 0
    &&& forall|i: int| 0 <= i < chunks.len() ==> !(#[trigger] chunks[i]).contains('/')
}

/// Whether each chunk of a pattern is `*` or the chunk of the key at the same place.
pub open spec fn chunks_match(pattern: Seq<Seq<char>>, key: Seq<Seq<char>>) -> bool {
    &&& pattern.len() == key.len()
    &&& forall|i: int|
        0 <= i < pattern.len() ==> (#[trigger] pattern[i]) == seq!['*'] || pattern[i] == key[i]
}

/// Whether a key expression matches a key, chunk by chunk.
pub open spec fn key_matches(pattern: Seq<char>, key: Seq<char>) -> bool {
    exists|p: Seq<Seq<char>>, k: Seq<Seq<char>>|
        separable(p) && separable(k) && joined(p) == pattern && joined(k) == key
            && #[trigger] chunks_match(p, k)
}

/// Whether a filter matches a URI, each under its own local authority.
pub open spec fn uri_matches(
    filter_local: Seq<char>,
    filter: UriView,
    local: Seq<char>,
    uri: UriView,
) -> bool {
    &&& {
        ||| resolved_authority(filter_local, filter) == seq!['*']
        ||| resolved_authority(filter_local, filter) == resolved_authority(local, uri)
    }
    &&& filter.any_type() || filter.entity_type() == uri.entity_type()
    &&& filter.any_instance() || filter.entity_instance() == uri.entity_instance()
    &&& filter.any_version() || filter.ue_version_major == uri.ue_version_major
    &&& filter.any_resource() || filter.resource_id == uri.resource_id
}

/// Whether a filter consists of wildcards only.
pub open spec fn all_wildcards(filter_local: Seq<char>, filter: UriView) -> bool {
    &&& resolved_authority(filter_local, filter) == seq!['*']
    &&& filter.any_type()
    &&& filter.any_instance()
    &&& filter.any_version()
    &&& filter.any_resource()
}

/// Whether an optional sink filter matches an optional sink.
///
/// A message without a sink is matched by the missing filter, and by the filter that
/// consists of wildcards only.
pub open spec fn sink_matches(
    filter_local: Seq<char>,
    filter: Option<UriView>,
    local: Seq<char>,
    sink: Option<UriView>,
) -> bool {
    match (filter, sink) {
        (Some(f), Some(s)) => uri_matches(filter_local, f, local, s),
        (Some(f), None) => all_wildcards(filter_local, f),
        (None, Some(_)) => false,
        (None, None) => true,
    }
}

/// Whether a URI can be written into a key without loss.
pub open spec fn key_safe(local: Seq<char>, uri: UriView) -> bool {
    uri.in_range() && crate::uri::plain(resolved_authority(local, uri))
}

/// Whether an optional URI can be written into a key without loss.
pub open spec fn sink_safe(local: Seq<char>, sink: Option<UriView>) -> bool {
    sink matches Some(uri) ==> key_safe(local, uri)
}

/// Whether two URIs have the same address once their authorities are resolved.
pub open spec fn same_address(
    a_local: Seq<char>,
    a: UriView,
    b_local: Seq<char>,
    b: UriView,
) -> bool {
    &&& resolved_authority(a_local, a) == resolved_authority(b_local, b)
    &&& a.ue_id == b.ue_id
    &&& a.ue_version_major == b.ue_version_major
    &&& a.resource_id == b.resource_id
}

proof fn lemma_no_separator(chunk: Seq<char>)
    requires
        forall|i: int| 0 <= i < chunk.len() ==> chunk[i] != '/',
    ensures
        !chunk.contains('/'),
{
}

proof fn lemma_number_chunk(n: nat, any: bool)
    ensures
        !number_chunk(n, any).contains('/'),
        number_chunk(n, any) != missing_chunk(),
        number_chunk(n, any) == seq!['*'] <==> any,
{
    text::law_numeral_chars(n, 16, true);
    let c = number_chunk(n, any);
    lemma_no_separator(c);
    assert(c[0] != '{');
    assert(missing_chunk()[0] == '{');
    if !any {
        assert(c[0] != '*');
        assert(seq!['*'][0] == '*');
    }
}

proof fn lemma_number_chunk_injective(m: nat, any_m: bool, n: nat, any_n: bool)
    requires
        number_chunk(m, any_m) == number_chunk(n, any_n),
    ensures
        any_m == any_n,
        any_m || m == n,
{
    lemma_number_chunk(m, any_m);
    lemma_number_chunk(n, any_n);
    if !any_m && !any_n {
        text::law_numeral_injective(m, n, 16, true);
    }
}

proof fn lemma_uri_chunks_separable(local: Seq<char>, uri: UriView)
    requires
        key_safe(local, uri),
    ensures
        separable(uri_chunks(local, uri)),
{
    lemma_number_chunk(uri.entity_type(), uri.any_type());
    lemma_number_chunk(uri.entity_instance(), uri.any_instance());
    lemma_number_chunk(uri.version(), uri.any_version());
    lemma_number_chunk(uri.resource(), uri.any_resource());
}

proof fn lemma_key_chunks_separable(local: Seq<char>, source: UriView, sink: Option<UriView>)
    requires
        key_safe(local, source),
        sink_safe(local, sink),
    ensures
        separable(key_chunks(local, source, sink)),
{
    lemma_uri_chunks_separable(local, source);
    if let Some(uri) = sink {
        lemma_uri_chunks_separable(local, uri);
    } else {
        lemma_no_separator(missing_chunk());
    }
    lemma_no_separator(seq!['u', 'p']);
}

/// Joined chunks can be told apart again.
proof fn lemma_joined_injective(p: Seq<Seq<char>>, q: Seq<Seq<char>>)
    requires
        separable(p),
        separable(q),
        joined(p) == joined(q),
    ensures
        p == q,
    decreases p.len(),
{
    let text = joined(p);
    if p.len() == 1 && q.len() == 1 {
        assert(p =~= q);
    } else if p.len() == 1 {
        lemma_separator_at(q);
        assert(p[0].contains('/'));
    } else if q.len() == 1 {
        lemma_separator_at(p);
        assert(q[0].contains('/'));
    } else {
        lemma_separator_at(p);
        lemma_separator_at(q);
        let a = p.last();
        let b = q.last();
        if a.len() < b.len() {
            assert(b[b.len() - a.len() - 1] == text[text.len() - a.len() - 1]);
            assert(b.contains('/'));
        } else if b.len() < a.len() {
            assert(a[a.len() - b.len() - 1] == text[text.len() - b.len() - 1]);
            assert(a.contains('/'));
        } else {
            let cut = text.len() - a.len();
            assert(a =~= text.subrange(cut, text.len() as int));
            assert(b =~= text.subrange(cut, text.len() as int));
            assert(joined(p.drop_last()) =~= text.subrange(0, cut - 1));
            assert(joined(q.drop_last()) =~= text.subrange(0, cut - 1));
            lemma_joined_injective(p.drop_last(), q.drop_last());
            assert(p =~= p.drop_last().push(a));
            assert(q =~= q.drop_last().push(b));
        }
    }
}

proof fn lemma_separator_at(p: Seq<Seq<char>>)
    requires
        p.len() > 1,
    ensures
        joined(p).len() == joined(p.drop_last()).len() + 1 + p.last().len(),
        joined(p)[joined(p).len() - p.last().len() - 1] == '/',
        joined(p).contains('/'),
{
    let text = joined(p);
    assert(text[joined(p.drop_last()).len() as int] == '/');
}

/// A key expression matches a key exactly if the source filter matches the source and
/// the sink filter matches the sink.
///
/// The filter and the message may stem from entities with different local authorities.
pub proof fn law_key_matches_filters(
    filter_local: Seq<char>,
    source_filter: UriView,
    sink_filter: Option<UriView>,
    local: Seq<char>,
    source: UriView,
    sink: Option<UriView>,
)
    requires
        key_safe(filter_local, source_filter),
        sink_safe(filter_local, sink_filter),
        key_safe(local, source),
        sink_safe(local, sink),
    ensures
        key_matches(
            zenoh_key(filter_local, source_filter, sink_filter),
            zenoh_key(local, source, sink),
        ) <==> uri_matches(filter_local, source_filter, local, source) && sink_matches(
            filter_local,
            sink_filter,
            local,
            sink,
        ),
{
    let p = key_chunks(filter_local, source_filter, sink_filter);
    let k = key_chunks(local, source, sink);
    let pattern = zenoh_key(filter_local, source_filter, sink_filter);
    let key = zenoh_key(local, source, sink);
    lemma_key_chunks_separable(filter_local, source_filter, sink_filter);
    lemma_key_chunks_separable(local, source, sink);
    if key_matches(pattern, key) {
        let (p2, k2) = choose|p2: Seq<Seq<char>>, k2: Seq<Seq<char>>|
            separable(p2) && separable(k2) && joined(p2) == pattern && joined(k2) == key
                && #[trigger] chunks_match(p2, k2);
        lemma_joined_injective(p, p2);
        lemma_joined_injective(k, k2);
        assert(chunks_match(p, k));
    }
    assert(key_matches(pattern, key) <==> chunks_match(p, k));
    let ps = uri_chunks(filter_local, source_filter);
    let ks = uri_chunks(local, source);
    let pd = sink_chunks(filter_local, sink_filter);
    let kd = sink_chunks(local, sink);
    assert(chunks_match(p, k) <==> chunks_match(ps, ks) && chunks_match(pd, kd)) by {
        assert(forall|i: int| 0 <= i < 5 ==> p[i + 1] == ps[i] && k[i + 1] == ks[i]);
        assert(forall|i: int| 0 <= i < 5 ==> p[i + 6] == pd[i] && k[i + 6] == kd[i]);
        assert(p[0] == k[0]);
        if chunks_match(p, k) {
            assert forall|i: int| 0 <= i < 5 implies (#[trigger] ps[i]) == seq!['*'] || ps[i]
                == ks[i] by {
                assert(p[i + 1] == ps[i]);
            }
            assert forall|i: int| 0 <= i < 5 implies (#[trigger] pd[i]) == seq!['*'] || pd[i]
                == kd[i] by {
                assert(p[i + 6] == pd[i]);
            }
        }
        if chunks_match(ps, ks) && chunks_match(pd, kd) {
            assert forall|i: int| 0 <= i < p.len() implies (#[trigger] p[i]) == seq!['*'] || p[i]
                == k[i] by {
                if 1 <= i < 6 {
                    assert(p[i] == ps[i - 1]);
                } else if 6 <= i {
                    assert(p[i] == pd[i - 6]);
                }
            }
        }
    }
    lemma_uri_chunks_match(filter_local, source_filter, local, source);
    match (sink_filter, sink) {
        (Some(f), Some(s)) => {
            lemma_uri_chunks_match(filter_local, f, local, s);
        },
        (Some(f), None) => {
            lemma_missing_matched(filter_local, f);
        },
        (None, Some(s)) => {
            lemma_number_chunk(s.entity_type(), s.any_type());
            assert(pd[1] == missing_chunk());
            assert(seq!['*'].len() == 1);
            assert(missing_chunk().len() == 2);
        },
        (None, None) => {
            assert(pd =~= kd);
        },
    }
}

proof fn lemma_chunk_matches(m: nat, any_m: bool, n: nat, any_n: bool)
    ensures
        any_m == any_n && (any_m || m == n) <==> number_chunk(m, any_m) == number_chunk(n, any_n),
        number_chunk(m, any_m) == seq!['*'] <==> any_m,
{
    lemma_number_chunk(m, any_m);
    lemma_number_chunk(n, any_n);
    if number_chunk(m, any_m) == number_chunk(n, any_n) {
        lemma_number_chunk_injective(m, any_m, n, any_n);
    }
}

proof fn lemma_uri_chunks_match(
    filter_local: Seq<char>,
    filter: UriView,
    local: Seq<char>,
    uri: UriView,
)
    requires
        filter.in_range(),
        uri.in_range(),
    ensures
        chunks_match(uri_chunks(filter_local, filter), uri_chunks(local, uri)) <==> uri_matches(
            filter_local,
            filter,
            local,
            uri,
        ),
{
    let p = uri_chunks(filter_local, filter);
    let k = uri_chunks(local, uri);
    lemma_chunk_matches(
        filter.entity_type(),
        filter.any_type(),
        uri.entity_type(),
        uri.any_type(),
    );
    lemma_chunk_matches(
        filter.entity_instance(),
        filter.any_instance(),
        uri.entity_instance(),
        uri.any_instance(),
    );
    lemma_chunk_matches(filter.version(), filter.any_version(), uri.version(), uri.any_version());
    lemma_chunk_matches(
        filter.resource(),
        filter.any_resource(),
        uri.resource(),
        uri.any_resource(),
    );
    if chunks_match(p, k) {
        assert(p[0] == seq!['*'] || p[0] == k[0]);
        assert(p[1] == seq!['*'] || p[1] == k[1]);
        assert(p[2] == seq!['*'] || p[2] == k[2]);
        assert(p[3] == seq!['*'] || p[3] == k[3]);
        assert(p[4] == seq!['*'] || p[4] == k[4]);
    }
    if uri_matches(filter_local, filter, local, uri) {
        assert(p[0] == seq!['*'] || p[0] == k[0]);
        assert(p[1] == seq!['*'] || p[1] == k[1]);
        assert(p[2] == seq!['*'] || p[2] == k[2]);
        assert(p[3] == seq!['*'] || p[3] == k[3]);
        assert(p[4] == seq!['*'] || p[4] == k[4]);
    }
}

proof fn lemma_missing_matched(filter_local: Seq<char>, filter: UriView)
    requires
        key_safe(filter_local, filter),
    ensures
        chunks_match(uri_chunks(filter_local, filter), sink_chunks(filter_local, None))
            <==> all_wildcards(filter_local, filter),
{
    let p = uri_chunks(filter_local, filter);
    let k = sink_chunks(filter_local, None);
    lemma_number_chunk(filter.entity_type(), filter.any_type());
    lemma_number_chunk(filter.entity_instance(), filter.any_instance());
    lemma_number_chunk(filter.version(), filter.any_version());
    lemma_number_chunk(filter.resource(), filter.any_resource());
    assert(missing_chunk()[0] == '{');
    assert(p[0] != missing_chunk());
    if chunks_match(p, k) {
        assert(p[0] == seq!['*']);
        assert(p[1] == seq!['*']);
        assert(p[2] == seq!['*']);
        assert(p[3] == seq!['*']);
        assert(p[4] == seq!['*']);
    }
}

/// Different addresses have different keys: what two keys agree on determines the
/// source and the sink up to the name that a local authority goes by.
pub proof fn law_key_injective(
    a_local: Seq<char>,
    a_source: UriView,
    a_sink: Option<UriView>,
    b_local: Seq<char>,
    b_source: UriView,
    b_sink: Option<UriView>,
)
    requires
        key_safe(a_local, a_source),
        sink_safe(a_local, a_sink),
        key_safe(b_local, b_source),
        sink_safe(b_local, b_sink),
        zenoh_key(a_local, a_source, a_sink) == zenoh_key(b_local, b_source, b_sink),
    ensures
        same_address(a_local, a_source, b_local, b_source),
        match (a_sink, b_sink) {
            (Some(a), Some(b)) => same_address(a_local, a, b_local, b),
            (None, None) => true,
            _ => false,
        },
{
    let a = key_chunks(a_local, a_source, a_sink);
    let b = key_chunks(b_local, b_source, b_sink);
    lemma_key_chunks_separable(a_local, a_source, a_sink);
    lemma_key_chunks_separable(b_local, b_source, b_sink);
    lemma_joined_injective(a, b);
    assert(uri_chunks(a_local, a_source) =~= a.subrange(1, 6));
    assert(uri_chunks(b_local, b_source) =~= b.subrange(1, 6));
    assert(sink_chunks(a_local, a_sink) =~= a.subrange(6, 11));
    assert(sink_chunks(b_local, b_sink) =~= b.subrange(6, 11));
    lemma_uri_chunks_injective(a_local, a_source, b_local, b_source);
    match (a_sink, b_sink) {
        (Some(x), Some(y)) => {
            lemma_uri_chunks_injective(a_local, x, b_local, y);
        },
        (Some(x), None) => {
            lemma_number_chunk(x.entity_type(), x.any_type());
            assert(uri_chunks(a_local, x)[1] == missing_chunk());
        },
        (None, Some(y)) => {
            lemma_number_chunk(y.entity_type(), y.any_type());
            assert(uri_chunks(b_local, y)[1] == missing_chunk());
        },
        (None, None) => {},
    }
}

proof fn lemma_uri_chunks_injective(
    a_local: Seq<char>,
    a: UriView,
    b_local: Seq<char>,
    b: UriView,
)
    requires
        a.in_range(),
        b.in_range(),
        uri_chunks(a_local, a) == uri_chunks(b_local, b),
    ensures
        same_address(a_local, a, b_local, b),
{
    let p = uri_chunks(a_local, a);
    let q = uri_chunks(b_local, b);
    assert(p[0] == resolved_authority(a_local, a) && q[0] == resolved_authority(b_local, b));
    assert(p[1] == q[1] && p[2] == q[2] && p[3] == q[3] && p[4] == q[4]);
    lemma_number_chunk_injective(a.entity_type(), a.any_type(), b.entity_type(), b.any_type());
    lemma_number_chunk_injective(
        a.entity_instance(),
        a.any_instance(),
        b.entity_instance(),
        b.any_instance(),
    );
    lemma_number_chunk_injective(a.version(), a.any_version(), b.version(), b.any_version());
    lemma_number_chunk_injective(a.resource(), a.any_resource(), b.resource(), b.any_resource());
}

/// A key is matched by itself.
pub proof fn law_key_matches_itself(local: Seq<char>, source: UriView, sink: Option<UriView>)
    requires
        key_safe(local, source),
        sink_safe(local, sink),
    ensures
        key_matches(zenoh_key(local, source, sink), zenoh_key(local, source, sink)),
{
    let k = key_chunks(local, source, sink);
    lemma_key_chunks_separable(local, source, sink);
    assert(chunks_match(k, k));
}

/// The way in which one URI is written in a key.
pub open spec fn address_path(local: Seq<char>, uri: UriView) -> Seq<char> {
    let authority = if uri.authority_name.len() == 0 {
        local
    } else {
        uri.authority_name
    };
    let entity_type = if uri.ue_id % 0x1_0000 == 0xFFFF {
        seq!['*']
    } else {
        text::numeral((uri.ue_id % 0x1_0000) as nat, 16, true)
    };
    let instance = if uri.ue_id / 0x1_0000 == 0xFFFF {
        seq!['*']
    } else {
        text::numeral((uri.ue_id / 0x1_0000) as nat, 16, true)
    };
    let version = if uri.ue_version_major == 0xFF {
        seq!['*']
    } else {
        text::numeral((uri.ue_version_major % 0x100) as nat, 16, true)
    };
    let resource = if uri.resource_id == 0xFFFF {
        seq!['*']
    } else {
        text::numeral((uri.resource_id % 0x1_0000) as nat, 16, true)
    };
    authority + seq!['/'] + entity_type + seq!['/'] + instance + seq!['/'] + version + seq!['/']
        + resource
}

proof fn lemma_address_path(local: Seq<char>, uri: UriView)
    ensures
        joined(uri_chunks(local, uri)) == address_path(local, uri),
{
    let chunks = uri_chunks(local, uri);
    let s1 = seq![chunks[0]];
    let s2 = s1.push(chunks[1]);
    let s3 = s2.push(chunks[2]);
    let s4 = s3.push(chunks[3]);
    let s5 = s4.push(chunks[4]);
    lemma_joined_push(s1, chunks[1]);
    lemma_joined_push(s2, chunks[2]);
    lemma_joined_push(s3, chunks[3]);
    lemma_joined_push(s4, chunks[4]);
    assert(s5 =~= chunks);
    assert(joined(s1) == chunks[0]);
    assert(joined(chunks) =~= address_path(local, uri));
}

/// A key reads `up`, then the source, then the sink: of each the authority, or the local one
/// where there is none, the type, the instance, the version and the resource. A missing sink
/// reads `{}/{}/{}/{}/{}`.
pub proof fn law_key_reads_as_a_path(local: Seq<char>, source: UriView, sink: Option<UriView>)
    ensures
        zenoh_key(local, source, sink) == "up/"@ + address_path(local, source) + "/"@ + (
        match sink {
            Some(uri) => address_path(local, uri),
            None => "{}/{}/{}/{}/{}"@,
        }),
{
    reveal_strlit("up/");
    reveal_strlit("/");
    let root: Seq<Seq<char>> = seq![seq!['u', 'p']];
    let source_part = uri_chunks(local, source);
    let sink_part = sink_chunks(local, sink);
    lemma_joined_concat(root, source_part);
    lemma_joined_concat(root + source_part, sink_part);
    lemma_address_path(local, source);
    match sink {
        Some(uri) => {
            lemma_address_path(local, uri);
        },
        None => {
            lemma_missing_joined();
            assert(sink_part =~= sink_chunks(Seq::empty(), None));
        },
    }
    assert("/"@ =~= seq!['/']);
    assert("up/"@ =~= seq!['u', 'p'] + seq!['/']);
    assert(joined(root) == seq!['u', 'p']);
    assert(zenoh_key(local, source, sink) =~= "up/"@ + address_path(local, source) + "/"@ + (
    match sink {
        Some(uri) => address_path(local, uri),
        None => "{}/{}/{}/{}/{}"@,
    }));
}

} // verus!
