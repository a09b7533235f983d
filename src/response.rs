use vstd::prelude::*;

use crate::error::Error;
use crate::headers::{
    content_type_name, copy_bytes, lemma_bytes_deep_view, names_match, same_name, Header,
};
use crate::http_spec::{field_byte, header_name_accepts};

verus! {

/// A response header entry as the host reports it: name or value may be missing.
pub type HostHeader = (Option<Vec<u8>>, Option<Vec<u8>>);

/// The response head that the host's fetch resolved with.
pub struct HostResponse {
    pub status: u16,
    pub headers: Vec<HostHeader>,
}

/// The decoded head of a response: its status, its headers and its
/// (mandatory) content type.
pub struct ResponseHead {
    pub status: u16,
    pub headers: Vec<Header>,
    pub content_type: Vec<u8>,
}

/// The host entries that carry both a name and a value, in host order.
pub open spec fn present(e: Seq<(Option<Seq<u8>>, Option<Seq<u8>>)>) -> Seq<(Seq<u8>, Seq<u8>)>
    decreases e.len(),
{
    if e.len() == 0 {
        seq![]
    } else {
        let rest = present(e.drop_last());
        match e.last() {
            (Some(n), Some(v)) => rest.push((n, v)),
            _ => rest,
        }
    }
}

/// The value of the last `content-type` header, if any.
pub open spec fn last_content_type(h: Seq<(Seq<u8>, Seq<u8>)>) -> Option<Seq<u8>>
    decreases h.len(),
{
    if h.len() == 0 {
        None
    } else if same_name(h.last().0, content_type_name()) {
        Some(h.last().1)
    } else {
        last_content_type(h.drop_last())
    }
}

/// A header value that the `http` crate accepts.
pub open spec fn value_accepted(v: Seq<u8>) -> bool {
    forall|i: int| 0 <= i < v.len() ==> #[trigger] field_byte(v[i])
}

/// A header that an `http` response can carry.
pub open spec fn header_accepted(h: (Seq<u8>, Seq<u8>)) -> bool {
    header_name_accepts(h.0) && value_accepted(h.1)
}

/// Every header is one that an `http` response can carry.
pub open spec fn all_accepted(h: Seq<(Seq<u8>, Seq<u8>)>) -> bool {
    forall|i: int| 0 <= i < h.len() ==> #[trigger] header_accepted(h[i])
}

/// A status code that the `http` crate accepts.
pub open spec fn status_accepted(s: u16) -> bool {
    100 <= s && s <= 999
}

/// Translates the host's response headers: entries without a name or a value
/// are skipped, the others are kept in order (repeats included), and the value
/// of the last `content-type` entry is captured.
pub fn set_response_headers(entries: &Vec<HostHeader>) -> (r: (Vec<Header>, Option<Vec<u8>>))
    ensures
        r.0.deep_view() == present(entries.deep_view()),
        r.1.deep_view() == last_content_type(present(entries.deep_view())),
{
    let mut out: Vec<Header> = Vec::new();
    let mut content_type: Option<Vec<u8>> = None;
    let ct_name = crate::headers::content_type_bytes();
    let mut i: usize = 0;
    proof {
        assert(present(entries.deep_view().subrange(0, 0)) =~= seq![]);
    }
    while i < entries.len()
        invariant
            0 <= i <= entries@.len(),
            ct_name@ == content_type_name(),
            out.deep_view() == present(entries.deep_view().subrange(0, i as int)),
            content_type.deep_view() == last_content_type(
                present(entries.deep_view().subrange(0, i as int)),
            ),
        decreases entries@.len() - i,
    {
        let ghost e = entries.deep_view();
        let ghost old_out = out.deep_view();
        proof {
            assert(e.subrange(0, i + 1).drop_last() =~= e.subrange(0, i as int));
            assert(e.subrange(0, i + 1).last() == e[i as int]);
        }
        match &entries[i] {
            (Some(name), Some(value)) => {
                proof {
                    lemma_bytes_deep_view(*name);
                    lemma_bytes_deep_view(*value);
                    assert(e[i as int] == (Some(name@), Some(value@)));
                    assert(present(e.subrange(0, i + 1)) == old_out.push((name@, value@)));
                    assert(old_out.push((name@, value@)).drop_last() =~= old_out);
                }
                if names_match(name.as_slice(), ct_name.as_slice()) {
                    let c = copy_bytes(value);
                    proof {
                        lemma_bytes_deep_view(c);
                    }
                    content_type = Some(c);
                }
                let n2 = copy_bytes(name);
                let v2 = copy_bytes(value);
                out.push((n2, v2));
                proof {
                    lemma_bytes_deep_view(n2);
                    lemma_bytes_deep_view(v2);
                    assert(out.deep_view() =~= old_out.push((name@, value@)));
                }
            },
            _ => {
                proof {
                    assert(!(e[i as int] matches (Some(_), Some(_))));
                }
            },
        }
        i = i + 1;
    }
    proof {
        assert(entries.deep_view().subrange(0, i as int) =~= entries.deep_view());
    }
    (out, content_type)
}

/// Whether every header can be carried by an `http` response.
pub fn headers_accepted(headers: &Vec<Header>) -> (r: bool)
    ensures
        r == all_accepted(headers.deep_view()),
{
    let mut i: usize = 0;
    while i < headers.len()
        invariant
            0 <= i <= headers@.len(),
            forall|j: int| 0 <= j < i ==> #[trigger] header_accepted(headers.deep_view()[j]),
        decreases headers@.len() - i,
    {
        let (name, value) = &headers[i];
        proof {
            lemma_bytes_deep_view(*name);
            lemma_bytes_deep_view(*value);
            assert(headers.deep_view()[i as int] == (name@, value@));
        }
        let name_ok = match http::HeaderName::from_bytes(name.as_slice()) {
            Ok(_) => true,
            Err(_) => false,
        };
        let value_ok = match http::HeaderValue::from_bytes(value.as_slice()) {
            Ok(_) => true,
            Err(_) => false,
        };
        if !(name_ok && value_ok) {
            assert(!header_accepted(headers.deep_view()[i as int]));
            assert(!all_accepted(headers.deep_view()));
            return false;
        }
        i = i + 1;
    }
    true
}

/// Whether the `http` crate accepts `status` as a response status.
pub fn status_is_valid(status: u16) -> (r: bool)
    ensures
        r == status_accepted(status),
{
    match http::StatusCode::from_u16(status) {
        Ok(_) => true,
        Err(_) => false,
    }
}

} // verus!
