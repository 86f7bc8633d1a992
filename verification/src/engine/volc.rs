//! Volcengine (ByteDance) video generation: request signing, the task's
//! request bodies, and the rules for submitting a task and polling it.
//! The HTTP exchanges are the caller's part.
use vstd::prelude::*;
use vstd::utf8::encode_utf8;

use crate::deps::{
    compact_utc_now, hex_digit, hex_encode, hex_lower, hmac_sha256, hmac_sha256_tag, json_quote, json_quoted,
    lowercase, sha256, sha256_digest, to_lowercase,
};
use crate::engine::video_gen::ProviderConfig;
use crate::text::{
    decimal, first_chars, join, lemma_str_less_asymmetric, lemma_str_less_irreflexive, lemma_str_less_total,
    lemma_str_less_transitive, owned, push_all, str_less, str_lt, take_chars, trim, trimmed,
};

verus! {

/// The SHA-256 of a text's UTF-8 bytes, in lowercase hexadecimal.
pub open spec fn sha256_hex(s: Seq<char>) -> Seq<char> {
    hex_lower(sha256_digest(encode_utf8(s)))
}

/// The SHA-256 of a text, in lowercase hexadecimal.
pub fn volc_sha256(data: &str) -> (h: String)
    ensures
        h@ == sha256_hex(data@),
{
    let d = sha256(data.as_bytes());
    hex_encode(d.as_slice())
}

/// The HMAC-SHA256 of a text under a key.
pub fn volc_hmac_sha256(key: &[u8], data: &str) -> (tag: Vec<u8>)
    ensures
        tag@ == hmac_sha256_tag(key@, encode_utf8(data@)),
        tag@.len() == 32,
{
    hmac_sha256(key, data.as_bytes())
}

/// The signed headers: by lowercase name, each value trimmed; a later
/// header replaces an earlier one with the same name.
pub open spec fn header_map(hs: Seq<(Seq<char>, Seq<char>)>) -> Map<Seq<char>, Seq<char>>
    decreases hs.len(),
{
    if hs.len() == 0 {
        Map::empty()
    } else {
        header_map(hs.drop_last()).insert(lowercase(hs.last().0), trim(hs.last().1))
    }
}

/// `e` lists the entries of `m` in ascending order of name, each once.
pub open spec fn lists_in_order(e: Seq<(Seq<char>, Seq<char>)>, m: Map<Seq<char>, Seq<char>>) -> bool {
    &&& forall|i: int, j: int| #![trigger e[i], e[j]] 0 <= i < j < e.len() ==> str_less(e[i].0, e[j].0)
    &&& forall|i: int| 0 <= i < e.len() ==> m.contains_key(#[trigger] e[i].0) && m[e[i].0] == e[i].1
    &&& forall|k: Seq<char>| #[trigger] m.contains_key(k) ==> exists|i: int| 0 <= i < e.len() && #[trigger] e[i].0 == k
}

/// The entries of `m` in ascending order of name.
pub open spec fn in_name_order(m: Map<Seq<char>, Seq<char>>) -> Seq<(Seq<char>, Seq<char>)> {
    choose|e: Seq<(Seq<char>, Seq<char>)>| lists_in_order(e, m)
}

/// The headers that are signed, in the order they are signed in: by
/// ascending lowercase name, as a `BTreeMap` keyed by name keeps them.
pub open spec fn signed_entries(hs: Seq<(Seq<char>, Seq<char>)>) -> Seq<(Seq<char>, Seq<char>)> {
    in_name_order(header_map(hs))
}

/// The entries as `name:value` lines.
pub open spec fn canonical_headers(e: Seq<(Seq<char>, Seq<char>)>) -> Seq<char>
    decreases e.len(),
{
    if e.len() == 0 {
        Seq::empty()
    } else {
        canonical_headers(e.drop_last()) + e.last().0 + ":"@ + e.last().1 + "\n"@
    }
}

/// The names of the entries.
pub open spec fn header_names(e: Seq<(Seq<char>, Seq<char>)>) -> Seq<Seq<char>> {
    e.map_values(|h: (Seq<char>, Seq<char>)| h.0)
}

/// The request that is signed, with its signed header entries `e`.
pub open spec fn canonical_request(
    method: Seq<char>,
    path: Seq<char>,
    query: Seq<char>,
    e: Seq<(Seq<char>, Seq<char>)>,
    payload: Seq<char>,
) -> Seq<char> {
    method + "\n"@ + path + "\n"@ + query + "\n"@ + canonical_headers(e) + "\n"@ + join(header_names(e), ";"@)
        + "\n"@ + sha256_hex(payload)
}

/// The credential scope: the date, region, service and `request`.
pub open spec fn credential_scope(date_iso: Seq<char>, region: Seq<char>, service: Seq<char>) -> Seq<char> {
    date_iso.take(8) + "/"@ + region + "/"@ + service + "/request"@
}

/// The key a signature is made with, derived from the secret through the
/// date, region and service.
pub open spec fn signing_key(secret: Seq<char>, date_iso: Seq<char>, region: Seq<char>, service: Seq<char>) -> Seq<u8> {
    let k_date = hmac_sha256_tag(encode_utf8(secret), encode_utf8(date_iso.take(8)));
    let k_region = hmac_sha256_tag(k_date, encode_utf8(region));
    let k_service = hmac_sha256_tag(k_region, encode_utf8(service));
    hmac_sha256_tag(k_service, encode_utf8("request"@))
}

/// The signature of a request with headers `hs`: the HMAC-SHA256, under
/// the derived signing key, of the string to sign, in lowercase hex.
pub open spec fn volc_signature(
    secret: Seq<char>,
    method: Seq<char>,
    path: Seq<char>,
    query: Seq<char>,
    hs: Seq<(Seq<char>, Seq<char>)>,
    payload: Seq<char>,
    region: Seq<char>,
    service: Seq<char>,
    date_iso: Seq<char>,
) -> Seq<char> {
    let scope = credential_scope(date_iso, region, service);
    let to_sign = "HMAC-SHA256\n"@ + date_iso + "\n"@ + scope + "\n"@ + sha256_hex(
        canonical_request(method, path, query, signed_entries(hs), payload),
    );
    hex_lower(hmac_sha256_tag(signing_key(secret, date_iso, region, service), encode_utf8(to_sign)))
}

/// A lowercase hexadecimal digit.
pub open spec fn is_lower_hex(c: char) -> bool {
    ('0' <= c && c <= '9') || ('a' <= c && c <= 'f')
}

/// Hex of `n` bytes is `2n` lowercase hexadecimal digits.
pub proof fn lemma_hex_lower_shape(bytes: Seq<u8>)
    ensures
        hex_lower(bytes).len() == 2 * bytes.len(),
        forall|i: int| 0 <= i < hex_lower(bytes).len() ==> is_lower_hex(#[trigger] hex_lower(bytes)[i]),
    decreases bytes.len(),
{
    if bytes.len() > 0 {
        lemma_hex_lower_shape(bytes.drop_last());
        let hi = bytes.last() / 16;
        let lo = bytes.last() % 16;
        assert(is_lower_hex(hex_digit(hi)) && is_lower_hex(hex_digit(lo))) by {
            lemma_hex_digit(hi);
            lemma_hex_digit(lo);
        }
        let p = hex_lower(bytes.drop_last());
        assert(hex_lower(bytes) == p + seq![hex_digit(hi), hex_digit(lo)]);
        assert forall|i: int| 0 <= i < hex_lower(bytes).len() implies is_lower_hex(#[trigger] hex_lower(bytes)[i]) by {
            if i < p.len() {
                assert(hex_lower(bytes)[i] == p[i]);
            }
        }
    }
}

/// A value below 16 has a lowercase hexadecimal digit.
proof fn lemma_hex_digit(n: u8)
    requires
        n < 16,
    ensures
        is_lower_hex(hex_digit(n)),
{
    assert(('0' as u8) == 48u8);
    assert(('a' as u8) == 97u8);
}

/// The `Authorization` header of a signed request with headers `hs`.
pub open spec fn volc_authorization(
    access_key_id: Seq<char>,
    secret: Seq<char>,
    method: Seq<char>,
    path: Seq<char>,
    query: Seq<char>,
    hs: Seq<(Seq<char>, Seq<char>)>,
    payload: Seq<char>,
    region: Seq<char>,
    service: Seq<char>,
    date_iso: Seq<char>,
) -> Seq<char> {
    let e = signed_entries(hs);
    let scope = credential_scope(date_iso, region, service);
    let signature = volc_signature(secret, method, path, query, hs, payload, region, service, date_iso);
    "HMAC-SHA256 Credential="@ + access_key_id + "/"@ + scope + ", SignedHeaders="@ + join(header_names(e), ";"@)
        + ", Signature="@ + signature
}

/// The headers as plain values.
pub open spec fn header_views(hs: Seq<(String, String)>) -> Seq<(Seq<char>, Seq<char>)> {
    hs.map_values(|h: (String, String)| (h.0@, h.1@))
}

/// A listing in name order without its first entry lists the rest.
proof fn lemma_listing_tail(e: Seq<(Seq<char>, Seq<char>)>, m: Map<Seq<char>, Seq<char>>)
    requires
        lists_in_order(e, m),
        e.len() > 0,
    ensures
        lists_in_order(e.drop_first(), m.remove(e[0].0)),
{
    let t = e.drop_first();
    let m2 = m.remove(e[0].0);
    assert forall|a: int, b: int| #![trigger t[a], t[b]] 0 <= a < b < t.len() implies str_less(t[a].0, t[b].0) by {
        assert(t[a] == e[a + 1] && t[b] == e[b + 1]);
    }
    assert forall|a: int| 0 <= a < t.len() implies m2.contains_key(#[trigger] t[a].0) && m2[t[a].0] == t[a].1 by {
        assert(t[a] == e[a + 1]);
        assert(str_less(e[0].0, e[a + 1].0));
        lemma_str_less_irreflexive(e[0].0);
    }
    assert forall|k: Seq<char>| #[trigger] m2.contains_key(k) implies exists|a: int| 0 <= a < t.len() && #[trigger] t[a].0 == k by {
        assert(m.contains_key(k));
        let b = choose|b: int| 0 <= b < e.len() && #[trigger] e[b].0 == k;
        assert(b != 0);
        assert(t[b - 1] == e[b]);
    }
}

/// A map has one listing in name order.
pub proof fn lemma_name_order_unique(
    e1: Seq<(Seq<char>, Seq<char>)>,
    e2: Seq<(Seq<char>, Seq<char>)>,
    m: Map<Seq<char>, Seq<char>>,
)
    requires
        lists_in_order(e1, m),
        lists_in_order(e2, m),
    ensures
        e1 == e2,
    decreases e1.len(),
{
    if e1.len() == 0 {
        if e2.len() > 0 {
            assert(m.contains_key(e2[0].0));
        }
        assert(e1 =~= e2);
    } else {
        let k1 = e1[0].0;
        assert(m.contains_key(k1));
        let j = choose|j: int| 0 <= j < e2.len() && #[trigger] e2[j].0 == k1;
        let k2 = e2[0].0;
        assert(m.contains_key(k2));
        let i = choose|i: int| 0 <= i < e1.len() && #[trigger] e1[i].0 == k2;
        if j > 0 && i > 0 {
            assert(str_less(e2[0].0, e2[j].0));
            assert(str_less(e1[0].0, e1[i].0));
            lemma_str_less_asymmetric(k1, k2);
        }
        assert(k1 == k2);
        assert(e1[0] == e2[0]);
        lemma_listing_tail(e1, m);
        lemma_listing_tail(e2, m);
        lemma_name_order_unique(e1.drop_first(), e2.drop_first(), m.remove(k1));
        assert(e1 =~= seq![e1[0]].add(e1.drop_first()));
        assert(e2 =~= seq![e2[0]].add(e2.drop_first()));
    }
}

/// Swapping two neighbouring headers with different lowercase names leaves
/// the signed headers as they were.
proof fn lemma_header_map_swap(hs1: Seq<(Seq<char>, Seq<char>)>, hs2: Seq<(Seq<char>, Seq<char>)>, i: int)
    requires
        0 <= i,
        i + 1 < hs1.len(),
        hs2 == hs1.update(i, hs1[i + 1]).update(i + 1, hs1[i]),
        lowercase(hs1[i].0) != lowercase(hs1[i + 1].0),
    ensures
        header_map(hs1) == header_map(hs2),
    decreases hs1.len(),
{
    if i + 2 == hs1.len() {
        let pre = hs1.take(i);
        assert(hs1.drop_last().drop_last() =~= pre);
        assert(hs2.drop_last().drop_last() =~= pre);
        let m = header_map(pre);
        let (k1, v1) = (lowercase(hs1[i].0), trim(hs1[i].1));
        let (k2, v2) = (lowercase(hs1[i + 1].0), trim(hs1[i + 1].1));
        assert(hs1.last() == hs1[i + 1] && hs1.drop_last().last() == hs1[i]);
        assert(hs2.last() == hs1[i] && hs2.drop_last().last() == hs1[i + 1]);
        assert(header_map(hs1.drop_last()) == m.insert(k1, v1));
        assert(header_map(hs2.drop_last()) == m.insert(k2, v2));
        assert(header_map(hs1) == m.insert(k1, v1).insert(k2, v2));
        assert(header_map(hs2) == m.insert(k2, v2).insert(k1, v1));
        assert(m.insert(k1, v1).insert(k2, v2) =~= m.insert(k2, v2).insert(k1, v1));
    } else {
        assert(hs2.drop_last() =~= hs1.drop_last().update(i, hs1[i + 1]).update(i + 1, hs1[i]));
        lemma_header_map_swap(hs1.drop_last(), hs2.drop_last(), i);
    }
}

/// The order of the headers does not matter to the signature: swapping two
/// neighbouring headers with different lowercase names signs alike.
pub proof fn lemma_signature_ignores_header_order(
    access_key_id: Seq<char>,
    secret: Seq<char>,
    method: Seq<char>,
    path: Seq<char>,
    query: Seq<char>,
    hs: Seq<(Seq<char>, Seq<char>)>,
    i: int,
    payload: Seq<char>,
    region: Seq<char>,
    service: Seq<char>,
    date_iso: Seq<char>,
)
    requires
        0 <= i,
        i + 1 < hs.len(),
        lowercase(hs[i].0) != lowercase(hs[i + 1].0),
    ensures
        ({
            let swapped = hs.update(i, hs[i + 1]).update(i + 1, hs[i]);
            volc_authorization(access_key_id, secret, method, path, query, swapped, payload, region, service, date_iso)
                == volc_authorization(access_key_id, secret, method, path, query, hs, payload, region, service, date_iso)
        }),
{
    lemma_header_map_swap(hs, hs.update(i, hs[i + 1]).update(i + 1, hs[i]), i);
}

/// Put a header into a listing in name order: in its place by name, or
/// in place of the entry with its name.
fn insert_header(
    sorted: &mut Vec<(String, String)>,
    name: String,
    value: String,
    Ghost(m): Ghost<Map<Seq<char>, Seq<char>>>,
)
    requires
        lists_in_order(header_views(old(sorted)@), m),
    ensures
        lists_in_order(header_views(final(sorted)@), m.insert(name@, value@)),
{
    let ghost e = header_views(sorted@);
    let ghost m2 = m.insert(name@, value@);
    let mut j: usize = 0;
    while j < sorted.len() && str_lt(sorted[j].0.as_str(), name.as_str())
        invariant
            j <= sorted@.len(),
            e == header_views(sorted@),
            lists_in_order(e, m),
            forall|a: int| 0 <= a < j ==> str_less(#[trigger] e[a].0, name@),
        decreases sorted@.len() - j,
    {
        j += 1;
    }
    assert(j < e.len() ==> !str_less(e[j as int].0, name@));
    if j < sorted.len() && sorted[j].0 == name {
        let ghost kj = e[j as int].0;
        sorted.set(j, (name, value));
        proof {
            let e2 = header_views(sorted@);
            assert(e2 =~= e.update(j as int, (name@, value@)));
            assert(kj == name@);
            assert forall|a: int, b: int| #![trigger e2[a], e2[b]] 0 <= a < b < e2.len() implies str_less(e2[a].0, e2[b].0) by {
                assert(e2[a].0 == e[a].0 && e2[b].0 == e[b].0);
                assert(str_less(e[a].0, e[b].0));
            }
            assert forall|a: int| 0 <= a < e2.len() implies m2.contains_key(#[trigger] e2[a].0) && m2[e2[a].0] == e2[a].1 by {
                if a != j {
                    if a < j {
                        assert(str_less(e[a].0, e[j as int].0));
                    } else {
                        assert(str_less(e[j as int].0, e[a].0));
                    }
                    lemma_str_less_irreflexive(name@);
                    assert(e2[a] == e[a]);
                }
            }
            assert forall|k: Seq<char>| #[trigger] m2.contains_key(k) implies exists|a: int| 0 <= a < e2.len() && #[trigger] e2[a].0 == k by {
                if k == name@ {
                    assert(e2[j as int].0 == k);
                } else {
                    assert(m.contains_key(k));
                    let a = choose|a: int| 0 <= a < e.len() && #[trigger] e[a].0 == k;
                    assert(e2[a].0 == k);
                }
            }
        }
    } else {
        let ghost entry = (name@, value@);
        sorted.insert(j, (name, value));
        proof {
            let e2 = header_views(sorted@);
            assert(e2 =~= e.insert(j as int, entry));
            assert forall|a: int| j <= a < e.len() implies str_less(name@, #[trigger] e[a].0) by {
                assert(e[j as int].0 != name@);
                lemma_str_less_total(e[j as int].0, name@);
                if a > j {
                    assert(str_less(e[j as int].0, e[a].0));
                    lemma_str_less_transitive(name@, e[j as int].0, e[a].0);
                }
            }
            assert forall|a: int| 0 <= a < e.len() implies #[trigger] e[a].0 != name@ by {
                lemma_str_less_irreflexive(name@);
                if a < j {
                    assert(str_less(e[a].0, name@));
                } else {
                    assert(str_less(name@, e[a].0));
                }
            }
            assert forall|a: int, b: int| #![trigger e2[a], e2[b]] 0 <= a < b < e2.len() implies str_less(e2[a].0, e2[b].0) by {
                if b < j {
                    assert(e2[a] == e[a] && e2[b] == e[b]);
                    assert(str_less(e[a].0, e[b].0));
                } else if b == j {
                    assert(e2[a] == e[a]);
                    assert(str_less(e[a].0, name@));
                } else if a < j {
                    assert(e2[a] == e[a] && e2[b] == e[b - 1]);
                    assert(str_less(e[a].0, e[b - 1].0));
                } else if a == j {
                    assert(e2[b] == e[b - 1]);
                    assert(str_less(name@, e[b - 1].0));
                } else {
                    assert(e2[a] == e[a - 1] && e2[b] == e[b - 1]);
                    assert(str_less(e[a - 1].0, e[b - 1].0));
                }
            }
            assert forall|a: int| 0 <= a < e2.len() implies m2.contains_key(#[trigger] e2[a].0) && m2[e2[a].0] == e2[a].1 by {
                if a < j {
                    assert(e2[a] == e[a]);
                    assert(e[a].0 != name@);
                } else if a > j {
                    assert(e2[a] == e[a - 1]);
                    assert(e[a - 1].0 != name@);
                }
            }
            assert forall|k: Seq<char>| #[trigger] m2.contains_key(k) implies exists|a: int| 0 <= a < e2.len() && #[trigger] e2[a].0 == k by {
                if k == name@ {
                    assert(e2[j as int].0 == k);
                } else {
                    assert(m.contains_key(k));
                    let a = choose|a: int| 0 <= a < e.len() && #[trigger] e[a].0 == k;
                    if a < j {
                        assert(e2[a].0 == k);
                    } else {
                        assert(e2[a + 1].0 == k);
                    }
                }
            }
        }
    }
}

/// Sign a Volcengine request (HMAC-SHA256, the service's variant of AWS
/// signature version 4). The headers are signed by lowercase name in
/// ascending order, each value trimmed; of two headers with the same
/// lowercase name the later counts. The first eight characters of
/// `date_iso` (`YYYYMMDD`) date the credential.
pub fn sign_volc_request(
    access_key_id: &str,
    secret_access_key: &str,
    method: &str,
    path: &str,
    query: &str,
    headers: &Vec<(String, String)>,
    payload: &str,
    region: &str,
    service: &str,
    date_iso: &str,
) -> (auth: String)
    requires
        date_iso@.len() >= 8,
    ensures
        auth@ == volc_authorization(
            access_key_id@,
            secret_access_key@,
            method@,
            path@,
            query@,
            header_views(headers@),
            payload@,
            region@,
            service@,
            date_iso@,
        ),
        volc_signature(
            secret_access_key@,
            method@,
            path@,
            query@,
            header_views(headers@),
            payload@,
            region@,
            service@,
            date_iso@,
        ).len() == 64,
        forall|i: int|
            0 <= i < 64 ==> is_lower_hex(
                #[trigger] volc_signature(
                    secret_access_key@,
                    method@,
                    path@,
                    query@,
                    header_views(headers@),
                    payload@,
                    region@,
                    service@,
                    date_iso@,
                )[i],
            ),
{
    let ghost hv = header_views(headers@);
    let date_short = take_chars(date_iso, 8);
    let mut sorted: Vec<(String, String)> = Vec::new();
    let mut i: usize = 0;
    assert(header_views(sorted@) =~= Seq::<(Seq<char>, Seq<char>)>::empty());
    assert(hv.take(0) =~= Seq::<(Seq<char>, Seq<char>)>::empty());
    assert(header_map(hv.take(0)) =~= Map::<Seq<char>, Seq<char>>::empty());
    while i < headers.len()
        invariant
            i <= headers@.len(),
            hv == header_views(headers@),
            lists_in_order(header_views(sorted@), header_map(hv.take(i as int))),
        decreases headers@.len() - i,
    {
        assert(hv.take(i + 1).drop_last() == hv.take(i as int));
        assert(hv.take(i + 1).last() == (headers@[i as int].0@, headers@[i as int].1@));
        let name = to_lowercase(headers[i].0.as_str());
        let value = trimmed(headers[i].1.as_str());
        insert_header(&mut sorted, name, value, Ghost(header_map(hv.take(i as int))));
        i += 1;
    }
    assert(hv.take(hv.len() as int) == hv);
    let ghost ev = header_views(sorted@);
    proof {
        assert(lists_in_order(ev, header_map(hv)));
        lemma_name_order_unique(ev, signed_entries(hv), header_map(hv));
    }
    let mut canon = String::new();
    let mut names: Vec<String> = Vec::new();
    let mut i: usize = 0;
    while i < sorted.len()
        invariant
            i <= sorted@.len(),
            ev == header_views(sorted@),
            canon@ == canonical_headers(ev.take(i as int)),
            crate::text::string_views(names@) == header_names(ev.take(i as int)),
        decreases sorted@.len() - i,
    {
        assert(ev.take(i + 1).drop_last() == ev.take(i as int));
        assert(ev.take(i + 1).last() == (sorted@[i as int].0@, sorted@[i as int].1@));
        push_all(&mut canon, sorted[i].0.as_str());
        push_all(&mut canon, ":");
        push_all(&mut canon, sorted[i].1.as_str());
        push_all(&mut canon, "\n");
        let name = owned(sorted[i].0.as_str());
        let ghost before = names@;
        names.push(name);
        assert(crate::text::string_views(names@) == crate::text::string_views(before).push(name@));
        assert(header_names(ev.take(i + 1)) == header_names(ev.take(i as int)).push(name@));
        i += 1;
    }
    assert(ev.take(ev.len() as int) == ev);
    let signed = crate::text::join_strings(&names, ";");
    let payload_hash = volc_sha256(payload);
    let mut request = owned(method);
    push_all(&mut request, "\n");
    push_all(&mut request, path);
    push_all(&mut request, "\n");
    push_all(&mut request, query);
    push_all(&mut request, "\n");
    push_all(&mut request, canon.as_str());
    push_all(&mut request, "\n");
    push_all(&mut request, signed.as_str());
    push_all(&mut request, "\n");
    push_all(&mut request, payload_hash.as_str());
    let mut scope = owned(date_short.as_str());
    push_all(&mut scope, "/");
    push_all(&mut scope, region);
    push_all(&mut scope, "/");
    push_all(&mut scope, service);
    push_all(&mut scope, "/request");
    assert(date_short@ == date_iso@.take(8));
    assert(request@ == canonical_request(method@, path@, query@, ev, payload@));
    assert(scope@ == credential_scope(date_iso@, region@, service@));
    let request_hash = volc_sha256(request.as_str());
    let mut to_sign = owned("HMAC-SHA256\n");
    push_all(&mut to_sign, date_iso);
    push_all(&mut to_sign, "\n");
    push_all(&mut to_sign, scope.as_str());
    push_all(&mut to_sign, "\n");
    push_all(&mut to_sign, request_hash.as_str());
    let k_date = volc_hmac_sha256(secret_access_key.as_bytes(), date_short.as_str());
    let k_region = volc_hmac_sha256(k_date.as_slice(), region);
    let k_service = volc_hmac_sha256(k_region.as_slice(), service);
    let k_signing = volc_hmac_sha256(k_service.as_slice(), "request");
    assert(k_signing@ == signing_key(secret_access_key@, date_iso@, region@, service@));
    proof {
        reveal_strlit("request");
    }
    let tag = volc_hmac_sha256(k_signing.as_slice(), to_sign.as_str());
    let signature = hex_encode(tag.as_slice());
    proof {
        lemma_hex_lower_shape(tag@);
        assert(signature@ == volc_signature(
            secret_access_key@,
            method@,
            path@,
            query@,
            hv,
            payload@,
            region@,
            service@,
            date_iso@,
        ));
    }
    let mut auth = owned("HMAC-SHA256 Credential=");
    push_all(&mut auth, access_key_id);
    push_all(&mut auth, "/");
    push_all(&mut auth, scope.as_str());
    push_all(&mut auth, ", SignedHeaders=");
    push_all(&mut auth, signed.as_str());
    push_all(&mut auth, ", Signature=");
    push_all(&mut auth, signature.as_str());
    auth
}

/// The task type requested: Jimeng video 3.0 at 1080p.
pub open spec fn req_key() -> Seq<char> {
    "jimeng_t2v_v30_1080p"@
}

/// The query of the request that submits a task.
pub fn submit_query() -> (q: String)
    ensures
        q@ == "Action=CVSync2AsyncSubmitTask&Version=2022-08-31"@,
{
    owned("Action=CVSync2AsyncSubmitTask&Version=2022-08-31")
}

/// The query of the request that asks for a task's result.
pub fn poll_query() -> (q: String)
    ensures
        q@ == "Action=CVSync2AsyncGetResult&Version=2022-08-31"@,
{
    owned("Action=CVSync2AsyncGetResult&Version=2022-08-31")
}

/// The error when the access key pair is missing.
pub open spec fn missing_keys_message() -> Seq<char> {
    "ByteDance Access Key ID or Secret Access Key not configured. Please set Access_Key_ID and Secret_Access_Key in .env file."@
}

/// Both keys of the access key pair are set.
pub fn bytedance_keys_check(config: &ProviderConfig) -> (r: Result<(), String>)
    ensures
        config.access_key_id@.len() == 0 || config.secret_access_key@.len() == 0 ==> (r matches Err(e) && e@ == missing_keys_message()),
        config.access_key_id@.len() > 0 && config.secret_access_key@.len() > 0 ==> r is Ok,
{
    let empty = String::new();
    assert(config.access_key_id@.len() == 0 ==> config.access_key_id@ =~= empty@);
    assert(config.secret_access_key@.len() == 0 ==> config.secret_access_key@ =~= empty@);
    if config.access_key_id == empty || config.secret_access_key == empty {
        return Err(owned(
            "ByteDance Access Key ID or Secret Access Key not configured. Please set Access_Key_ID and Secret_Access_Key in .env file.",
        ));
    }
    Ok(())
}

/// The body that submits a task: 121 frames (five seconds), 16:9, the
/// prompt and the seed (`-1` for a random one). Keys are in the order
/// `serde_json` writes them.
pub open spec fn submit_body(prompt: Seq<char>, seed: Option<u32>) -> Seq<char> {
    "{\"aspect_ratio\":\"16:9\",\"frames\":121,\"prompt\":"@ + json_quoted(prompt) + ",\"req_key\":\"jimeng_t2v_v30_1080p\",\"seed\":"@
        + (match seed {
        Some(n) => decimal(n as nat),
        None => "-1"@,
    }) + "}"@
}

/// The body that submits a task for `prompt`.
pub fn submit_payload(prompt: &str, seed: Option<u32>) -> (b: String)
    ensures
        b@ == submit_body(prompt@, seed),
{
    let mut b = owned("{\"aspect_ratio\":\"16:9\",\"frames\":121,\"prompt\":");
    let q = json_quote(prompt);
    push_all(&mut b, q.as_str());
    push_all(&mut b, ",\"req_key\":\"jimeng_t2v_v30_1080p\",\"seed\":");
    match seed {
        Some(n) => {
            let d = crate::text::decimal_string(n as usize);
            push_all(&mut b, d.as_str());
        },
        None => push_all(&mut b, "-1"),
    }
    push_all(&mut b, "}");
    b
}

/// The body that asks for a task's result.
pub open spec fn poll_body(task_id: Seq<char>) -> Seq<char> {
    "{\"req_key\":\"jimeng_t2v_v30_1080p\",\"task_id\":"@ + json_quoted(task_id) + "}"@
}

/// The body that asks for the result of task `task_id`.
pub fn poll_payload(task_id: &str) -> (b: String)
    ensures
        b@ == poll_body(task_id@),
{
    let mut b = owned("{\"req_key\":\"jimeng_t2v_v30_1080p\",\"task_id\":");
    let q = json_quote(task_id);
    push_all(&mut b, q.as_str());
    push_all(&mut b, "}");
    b
}

/// The headers a request is signed with, in the order of their lowercase
/// names: content type, host, date.
pub open spec fn signed_header_list(host: Seq<char>, date: Seq<char>) -> Seq<(Seq<char>, Seq<char>)> {
    seq![("Content-Type"@, "application/json"@), ("Host"@, host), ("X-Date"@, date)]
}

/// The headers a request is signed with.
pub fn volc_headers(host: &str, date: &str) -> (hs: Vec<(String, String)>)
    ensures
        header_views(hs@) == signed_header_list(host@, date@),
{
    let hs = vec![
        (owned("Content-Type"), owned("application/json")),
        (owned("Host"), owned(host)),
        (owned("X-Date"), owned(date)),
    ];
    assert(header_views(hs@) =~= signed_header_list(host@, date@));
    hs
}

/// Sign a request to the visual API now: the date it is signed at and the
/// `Authorization` header.
pub fn sign_now(config: &ProviderConfig, query: &str, payload: &str) -> (r: (String, String))
    ensures
        r.0@.len() >= 8,
        r.1@ == volc_authorization(
            config.access_key_id@,
            config.secret_access_key@,
            "POST"@,
            "/"@,
            query@,
            signed_header_list("visual.volcengineapi.com"@, r.0@),
            payload@,
            "cn-north-1"@,
            "cv"@,
            r.0@,
        ),
{
    let date = compact_utc_now();
    let headers = volc_headers("visual.volcengineapi.com", date.as_str());
    let auth = sign_volc_request(
        config.access_key_id.as_str(),
        config.secret_access_key.as_str(),
        "POST",
        "/",
        query,
        &headers,
        payload,
        "cn-north-1",
        "cv",
        date.as_str(),
    );
    (date, auth)
}

/// The task id a submission answer gives, or why the submission failed:
/// an HTTP error with its status and body, an answer code other than
/// 10000 (absent counts as 0) with the answer's message, or no task id.
pub fn submit_outcome(
    http_ok: bool,
    status: &str,
    body: &str,
    code: Option<i64>,
    message: &str,
    task_id: Option<String>,
) -> (r: Result<String, String>)
    ensures
        !http_ok ==> (r matches Err(e) && e@ == "ByteDance Submit Task Error: status="@ + status@ + ", body="@ + body@),
        http_ok && (match code {
            Some(c) => c,
            None => 0,
        }) != 10000 ==> (r matches Err(e) && e@ == "ByteDance Submit Failed: "@ + message@),
        http_ok && (match code {
            Some(c) => c,
            None => 0,
        }) == 10000 ==> match task_id {
            Some(t) => r == Ok::<String, String>(t),
            None => r matches Err(e) && e@ == "Task ID not found in response"@,
        },
{
    if !http_ok {
        let mut e = owned("ByteDance Submit Task Error: status=");
        push_all(&mut e, status);
        push_all(&mut e, ", body=");
        push_all(&mut e, body);
        return Err(e);
    }
    let c = match code {
        Some(c) => c,
        None => 0,
    };
    if c != 10000 {
        let mut e = owned("ByteDance Submit Failed: ");
        push_all(&mut e, message);
        return Err(e);
    }
    match task_id {
        Some(t) => Ok(t),
        None => Err(owned("Task ID not found in response")),
    }
}

/// The number of times a task's result is asked for before giving up.
pub open spec fn max_poll_attempts() -> u32 {
    150
}

/// The polling of a task: how many times its result has been asked for.
pub struct BytedancePoll {
    pub attempts: u32,
}

/// What one answer to a poll says.
pub enum PollReply {
    /// The request failed or was answered with an HTTP error.
    Unanswered,
    /// The answer was not JSON.
    Unreadable,
    /// The answer's code, task status and video URL, where present.
    Data { code: Option<i64>, status: Option<String>, video_url: Option<String> },
}

/// What to do after a poll.
pub enum PollStep {
    /// Ask again.
    Continue,
    /// The video is ready at this URL.
    Done(String),
    /// The task failed.
    Failed(String),
}

impl BytedancePoll {
    /// No poll yet.
    pub fn new() -> (p: Self)
        ensures
            p.attempts == 0,
    {
        BytedancePoll { attempts: 0 }
    }

    /// Count one more poll, or give up once 150 have been made.
    pub fn begin_attempt(&mut self) -> (r: Result<(), String>)
        requires
            old(self).attempts <= max_poll_attempts(),
        ensures
            old(self).attempts >= max_poll_attempts() ==> (r matches Err(e) && e@ == "Video generation timed out"@
                && final(self).attempts == old(self).attempts),
            old(self).attempts < max_poll_attempts() ==> r is Ok && final(self).attempts == old(self).attempts + 1,
            final(self).attempts <= max_poll_attempts(),
    {
        if self.attempts >= 150 {
            return Err(owned("Video generation timed out"));
        }
        self.attempts = self.attempts + 1;
        Ok(())
    }
}

/// The step a poll answer leads to: with code 10000, a `done` or `success`
/// status gives the video URL (empty when absent), a `failed` or `error`
/// status fails, and anything else asks again.
pub fn poll_step(reply: PollReply) -> (s: PollStep)
    ensures
        match reply {
            PollReply::Data { code, status, video_url } => {
                let st = match status {
                    Some(t) => t@,
                    None => "unknown"@,
                };
                if code == Some(10000i64) {
                    if st == "done"@ || st == "success"@ {
                        s matches PollStep::Done(u) && u@ == (match video_url {
                            Some(v) => v@,
                            None => Seq::<char>::empty(),
                        })
                    } else if st == "failed"@ || st == "error"@ {
                        s matches PollStep::Failed(m) && m@ == "Generation failed: status="@ + st
                    } else {
                        s is Continue
                    }
                } else {
                    s is Continue
                }
            },
            _ => s is Continue,
        },
{
    match reply {
        PollReply::Data { code, status, video_url } => {
            let ok = match code {
                Some(c) => c == 10000,
                None => false,
            };
            if !ok {
                return PollStep::Continue;
            }
            let st = match status {
                Some(t) => t,
                None => owned("unknown"),
            };
            if st == owned("done") || st == owned("success") {
                let url = match video_url {
                    Some(v) => v,
                    None => String::new(),
                };
                PollStep::Done(url)
            } else if st == owned("failed") || st == owned("error") {
                let mut m = owned("Generation failed: status=");
                push_all(&mut m, st.as_str());
                PollStep::Failed(m)
            } else {
                PollStep::Continue
            }
        },
        _ => PollStep::Continue,
    }
}

} // verus!
