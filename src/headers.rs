use vstd::prelude::*;

use crate::error::Error;

verus! {

/// A header as a name and a value, both raw bytes.
pub type Header = (Vec<u8>, Vec<u8>);

/// ASCII lower-casing of one byte.
pub open spec fn lower(b: u8) -> u8 {
    if 65 <= b <= 90 {
        (b + 32) as u8
    } else {
        b
    }
}

/// Two header names are the same name when they agree up to ASCII case.
pub open spec fn same_name(a: Seq<u8>, b: Seq<u8>) -> bool {
    &&& a.len() == b.len()
    &&& forall|i: int| 0 <= i < a.len() ==> #[trigger] lower(a[i]) == lower(b[i])
}

/// `content-type`
pub open spec fn content_type_name() -> Seq<u8> {
    seq![99u8, 111, 110, 116, 101, 110, 116, 45, 116, 121, 112, 101]
}

/// `accept`
pub open spec fn accept_name() -> Seq<u8> {
    seq![97u8, 99, 99, 101, 112, 116]
}

/// `x-grpc-web`
pub open spec fn grpc_web_name() -> Seq<u8> {
    seq![120u8, 45, 103, 114, 112, 99, 45, 119, 101, 98]
}

/// `application/grpc-web+proto`
pub open spec fn grpc_web_proto() -> Seq<u8> {
    seq![
        97u8, 112, 112, 108, 105, 99, 97, 116, 105, 111, 110, 47, 103, 114, 112, 99, 45, 119,
        101, 98, 43, 112, 114, 111, 116, 111,
    ]
}

/// `1`
pub open spec fn grpc_web_flag() -> Seq<u8> {
    seq![49u8]
}

/// The names that the bridge sets itself on every request.
pub open spec fn reserved(name: Seq<u8>) -> bool {
    same_name(name, content_type_name()) || same_name(name, accept_name()) || same_name(
        name,
        grpc_web_name(),
    )
}

/// The three protocol headers, in the order in which they are written.
pub open spec fn reserved_headers() -> Seq<(Seq<u8>, Seq<u8>)> {
    seq![
        (content_type_name(), grpc_web_proto()),
        (accept_name(), grpc_web_proto()),
        (grpc_web_name(), grpc_web_flag()),
    ]
}

/// A byte that a text header value may hold: visible ASCII or a tab.
pub open spec fn text_byte(b: u8) -> bool {
    (32 <= b && b < 127) || b == 9
}

/// A header value that can be represented as text.
pub open spec fn is_text(v: Seq<u8>) -> bool {
    forall|i: int| 0 <= i < v.len() ==> #[trigger] text_byte(v[i])
}

/// The caller headers that are forwarded: all but the reserved names, in order.
pub open spec fn forwarded(h: Seq<(Seq<u8>, Seq<u8>)>) -> Seq<(Seq<u8>, Seq<u8>)>
    decreases h.len(),
{
    if h.len() == 0 {
        seq![]
    } else if reserved(h.last().0) {
        forwarded(h.drop_last())
    } else {
        forwarded(h.drop_last()).push(h.last())
    }
}

/// A caller header that is dropped without a look at its value: one under
/// `content-type` or `accept`.
pub open spec fn unchecked(name: Seq<u8>) -> bool {
    same_name(name, content_type_name()) || same_name(name, accept_name())
}

/// Every caller header value that the bridge looks at is text: all but those
/// under `content-type` or `accept`.
pub open spec fn all_text(h: Seq<(Seq<u8>, Seq<u8>)>) -> bool {
    forall|i: int| 0 <= i < h.len() && !unchecked(h[i].0) ==> #[trigger] is_text(h[i].1)
}

/// The outgoing headers of a request with caller headers `h`.
pub open spec fn outgoing_headers(h: Seq<(Seq<u8>, Seq<u8>)>) -> Seq<(Seq<u8>, Seq<u8>)> {
    reserved_headers() + forwarded(h)
}

proof fn lemma_forwarded_unreserved(h: Seq<(Seq<u8>, Seq<u8>)>)
    ensures
        forall|j: int| 0 <= j < forwarded(h).len() ==> !reserved(#[trigger] forwarded(h)[j].0),
    decreases h.len(),
{
    if h.len() > 0 {
        let dl = h.drop_last();
        lemma_forwarded_unreserved(dl);
        assert forall|j: int| 0 <= j < forwarded(h).len() implies !reserved(
            #[trigger] forwarded(h)[j].0,
        ) by {
            if j < forwarded(dl).len() {
                assert(forwarded(h)[j] == forwarded(dl)[j]);
            }
        }
    }
}

proof fn lemma_forwarded_keeps(h: Seq<(Seq<u8>, Seq<u8>)>)
    ensures
        forall|i: int| 0 <= i < h.len() && !reserved(h[i].0) ==> forwarded(h).contains(#[trigger] h[i]),
    decreases h.len(),
{
    if h.len() > 0 {
        let dl = h.drop_last();
        lemma_forwarded_keeps(dl);
        assert forall|i: int| 0 <= i < h.len() && !reserved(h[i].0) implies forwarded(h).contains(
            #[trigger] h[i],
        ) by {
            if i < h.len() - 1 {
                assert(dl[i] == h[i]);
                let k = choose|k: int| 0 <= k < forwarded(dl).len() && forwarded(dl)[k] == dl[i];
                if !reserved(h.last().0) {
                    assert(forwarded(h)[k] == h[i]);
                }
            } else {
                assert(forwarded(h)[forwarded(h).len() - 1] == h[i]);
            }
        }
    }
}

/// On every request the three protocol headers lead the outgoing headers with
/// their fixed values, and no other outgoing header carries one of their
/// names: a caller's value under a reserved name never goes out.
pub proof fn reserved_headers_are_fixed(h: Seq<(Seq<u8>, Seq<u8>)>)
    ensures
        outgoing_headers(h).len() >= 3,
        outgoing_headers(h).subrange(0, 3) == reserved_headers(),
        forall|j: int|
            3 <= j < outgoing_headers(h).len() ==> !reserved(#[trigger] outgoing_headers(h)[j].0),
{
    lemma_forwarded_unreserved(h);
    assert(outgoing_headers(h).subrange(0, 3) =~= reserved_headers());
    assert forall|j: int| 3 <= j < outgoing_headers(h).len() implies !reserved(
        #[trigger] outgoing_headers(h)[j].0,
    ) by {
        assert(outgoing_headers(h)[j] == forwarded(h)[j - 3]);
    }
}

/// On every request each caller header under a name that is not reserved goes
/// out unmodified, name and value.
pub proof fn other_headers_are_forwarded(h: Seq<(Seq<u8>, Seq<u8>)>)
    ensures
        forall|i: int|
            0 <= i < h.len() && !reserved(h[i].0) ==> outgoing_headers(h).contains(#[trigger] h[i]),
{
    lemma_forwarded_keeps(h);
    assert forall|i: int| 0 <= i < h.len() && !reserved(h[i].0) implies outgoing_headers(
        h,
    ).contains(#[trigger] h[i]) by {
        let k = choose|k: int| 0 <= k < forwarded(h).len() && forwarded(h)[k] == h[i];
        assert(outgoing_headers(h)[k + 3] == h[i]);
    }
}

fn lower_byte(b: u8) -> (r: u8)
    ensures
        r == lower(b),
{
    if 65 <= b && b <= 90 {
        b + 32
    } else {
        b
    }
}

/// Compares two header names without regard to ASCII case.
pub fn names_match(a: &[u8], b: &[u8]) -> (r: bool)
    ensures
        r == same_name(a@, b@),
{
    if a.len() != b.len() {
        return false;
    }
    let mut i: usize = 0;
    while i < a.len()
        invariant
            a@.len() == b@.len(),
            0 <= i <= a@.len(),
            forall|j: int| 0 <= j < i ==> #[trigger] lower(a@[j]) == lower(b@[j]),
        decreases a@.len() - i,
    {
        if lower_byte(a[i]) != lower_byte(b[i]) {
            return false;
        }
        i = i + 1;
    }
    true
}

pub(crate) fn content_type_bytes() -> (r: Vec<u8>)
    ensures
        r@ == content_type_name(),
{
    let r: Vec<u8> = vec![99u8, 111, 110, 116, 101, 110, 116, 45, 116, 121, 112, 101];
    assert(r@ =~= content_type_name());
    r
}

fn accept_bytes() -> (r: Vec<u8>)
    ensures
        r@ == accept_name(),
{
    let r: Vec<u8> = vec![97u8, 99, 99, 101, 112, 116];
    assert(r@ =~= accept_name());
    r
}

fn grpc_web_bytes() -> (r: Vec<u8>)
    ensures
        r@ == grpc_web_name(),
{
    let r: Vec<u8> = vec![120u8, 45, 103, 114, 112, 99, 45, 119, 101, 98];
    assert(r@ =~= grpc_web_name());
    r
}

fn grpc_web_proto_bytes() -> (r: Vec<u8>)
    ensures
        r@ == grpc_web_proto(),
{
    let r: Vec<u8> = vec![
        97u8, 112, 112, 108, 105, 99, 97, 116, 105, 111, 110, 47, 103, 114, 112, 99, 45, 119,
        101, 98, 43, 112, 114, 111, 116, 111,
    ];
    assert(r@ =~= grpc_web_proto());
    r
}

/// The deep view of a byte vector is its view.
pub proof fn lemma_bytes_deep_view(v: Vec<u8>)
    ensures
        v.deep_view() == v@,
{
    assert(v.deep_view() =~= v@);
}

/// A copy of a byte vector.
pub fn copy_bytes(v: &Vec<u8>) -> (r: Vec<u8>)
    ensures
        r@ == v@,
{
    let r = v.clone();
    assert(r@ =~= v@);
    r
}

/// Whether `name` is one of the three headers that the bridge sets itself.
pub fn is_reserved_name(name: &[u8]) -> (r: bool)
    ensures
        r == reserved(name@),
{
    let ct = content_type_bytes();
    let acc = accept_bytes();
    let gw = grpc_web_bytes();
    names_match(name, ct.as_slice()) || names_match(name, acc.as_slice()) || names_match(
        name,
        gw.as_slice(),
    )
}

/// Whether a header value can be represented as text (visible ASCII or tabs).
pub fn value_is_text(v: &[u8]) -> (r: bool)
    ensures
        r == is_text(v@),
{
    let mut i: usize = 0;
    while i < v.len()
        invariant
            0 <= i <= v@.len(),
            forall|j: int| 0 <= j < i ==> #[trigger] text_byte(v@[j]),
        decreases v@.len() - i,
    {
        let b = v[i];
        if !((32 <= b && b < 127) || b == 9) {
            assert(!text_byte(v@[i as int]));
            return false;
        }
        i = i + 1;
    }
    true
}

/// Builds the outgoing headers from the caller's headers.
///
/// The three protocol headers come first with their fixed values; every
/// other caller header follows unmodified, in the caller's order. A caller
/// header under a reserved name is dropped. A caller value that is not text
/// fails the whole translation, unless it stands under `content-type` or
/// `accept`: those are dropped unread.
pub fn prepare_headers(headers: &Vec<Header>) -> (r: Result<Vec<Header>, Error>)
    ensures
        all_text(headers.deep_view()) ==> (r matches Ok(out) && out.deep_view()
            == outgoing_headers(headers.deep_view())),
        !all_text(headers.deep_view()) ==> r == Err::<Vec<Header>, Error>(Error::HeaderValueError),
{
    let mut out: Vec<Header> = Vec::new();
    out.push((content_type_bytes(), grpc_web_proto_bytes()));
    out.push((accept_bytes(), grpc_web_proto_bytes()));
    let flag: Vec<u8> = vec![49u8];
    assert(flag@ =~= grpc_web_flag());
    out.push((grpc_web_bytes(), flag));
    proof {
        lemma_bytes_deep_view(out@[0].0);
        lemma_bytes_deep_view(out@[0].1);
        lemma_bytes_deep_view(out@[1].0);
        lemma_bytes_deep_view(out@[1].1);
        lemma_bytes_deep_view(out@[2].0);
        lemma_bytes_deep_view(out@[2].1);
        assert(forwarded(headers.deep_view().subrange(0, 0)) =~= seq![]);
        assert(out.deep_view() =~= reserved_headers() + forwarded(
            headers.deep_view().subrange(0, 0),
        ));
    }
    let mut i: usize = 0;
    while i < headers.len()
        invariant
            0 <= i <= headers@.len(),
            out.deep_view() == reserved_headers() + forwarded(
                headers.deep_view().subrange(0, i as int),
            ),
            all_text(headers.deep_view().subrange(0, i as int)),
        decreases headers@.len() - i,
    {
        let ghost h = headers.deep_view();
        proof {
            assert(h.subrange(0, i + 1).drop_last() =~= h.subrange(0, i as int));
            assert(h.subrange(0, i + 1).last() == h[i as int]);
        }
        let (name, value) = &headers[i];
        proof {
            lemma_bytes_deep_view(*name);
            lemma_bytes_deep_view(*value);
            assert(h[i as int] == (name@, value@));
        }
        let ghost old_out = out.deep_view();
        let ct = content_type_bytes();
        let acc = accept_bytes();
        let skip = names_match(name.as_slice(), ct.as_slice()) || names_match(
            name.as_slice(),
            acc.as_slice(),
        );
        if !skip && !value_is_text(value.as_slice()) {
            proof {
                assert(!is_text(h[i as int].1) && !unchecked(h[i as int].0));
            }
            return Err(Error::HeaderValueError);
        }
        if !is_reserved_name(name.as_slice()) {
            let n2 = copy_bytes(name);
            let v2 = copy_bytes(value);
            out.push((n2, v2));
            proof {
                lemma_bytes_deep_view(n2);
                lemma_bytes_deep_view(v2);
                assert(out.deep_view() =~= old_out.push(h[i as int]));
            }
        }
        proof {
            assert(out.deep_view() =~= reserved_headers() + forwarded(h.subrange(0, i + 1)));
            assert forall|j: int|
                0 <= j < i + 1 && !unchecked(h.subrange(0, i + 1)[j].0) implies #[trigger] is_text(
                h.subrange(0, i + 1)[j].1,
            ) by {
                if j < i {
                    assert(h.subrange(0, i + 1)[j] == h.subrange(0, i as int)[j]);
                }
            }
        }
        i = i + 1;
    }
    proof {
        assert(headers.deep_view().subrange(0, i as int) =~= headers.deep_view());
    }
    Ok(out)
}

} // verus!
