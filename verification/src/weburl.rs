//! Request addresses: a path resolved against a base address, with the
//! query parameters of the request appended.

use vstd::prelude::*;
use vstd::utf8::encode_utf8;

verus! {

/// The address that `url::Url::join` gives for `reference` resolved against
/// the address written in `base`; `None` where `base` is no address, or where
/// the two do not resolve to one.
pub uninterp spec fn url_joined(base: Seq<char>, reference: Seq<char>) -> Option<Seq<char>>;

/// The address written in `url` once the pair `name`, `value` has been added
/// to its query by `append_pair` of `url::Url::query_pairs_mut`; `None` where
/// `url` is no address.
pub uninterp spec fn url_with_pair(url: Seq<char>, name: Seq<char>, value: Seq<char>) -> Option<
    Seq<char>,
>;

/// The address that `url::Url::parse` reads from a text, written out again;
/// `None` where the text is no address.
pub uninterp spec fn url_parsed(text: Seq<char>) -> Option<Seq<char>>;

/// Reads an address. Wraps `url::Url::parse`; the address comes back as the
/// text that the crate writes for it. The contract names that text, and
/// claims no more of it than that it depends on the text read alone.
#[verifier::external_body]
fn parse_url(text: &str) -> (r: Option<String>)
    ensures
        match r {
            Some(address) => url_parsed(text@) == Some(address@),
            None => url_parsed(text@) is None,
        },
{
    url::Url::parse(text).ok().map(String::from)
}

/// Reads an address, and writes it out in the form that the `url` crate
/// gives it.
pub fn normalized_url(text: &str) -> (r: Option<String>)
    ensures
        text_view(r) == url_parsed(text@),
{
    parse_url(text)
}

/// The longest address, in bytes, that the `url` crate can hold.
pub const MAX_URL_BYTES: usize = 0xffff_ffff;

/// Resolves `reference` against the address written in `base`. Wraps
/// `url::Url::join`, on the address that `url::Url::parse` reads from `base`;
/// the contract names the text of the address that comes out, and claims no
/// more of it than that it depends on the two texts alone.
#[verifier::external_body]
fn join_url(base: &str, reference: &str) -> (r: Option<String>)
    ensures
        match r {
            Some(joined) => url_joined(base@, reference@) == Some(joined@),
            None => url_joined(base@, reference@) is None,
        },
{
    let base = url::Url::parse(base).ok()?;
    base.join(reference).ok().map(String::from)
}

/// Adds a pair to the query of the address written in `url`. Wraps
/// `append_pair` on `url::Url::query_pairs_mut`, on the address that
/// `url::Url::parse` reads from `url`; the contract names the text of the
/// address that comes out. The crate keeps positions within an address as
/// 32-bit numbers and gives up where one does not fit, so the bound is on the
/// address as the crate holds it once it has read the text, which may be
/// longer than the text: that address, the pair with every byte of it
/// escaped, and the two signs that join them stay within the length that the
/// crate can hold.
#[verifier::external_body]
fn append_query_pair(url: &str, name: &str, value: &str) -> (r: Option<String>)
    requires
        pair_fits(url@, name@, value@),
    ensures
        match r {
            Some(extended) => url_with_pair(url@, name@, value@) == Some(extended@),
            None => url_with_pair(url@, name@, value@) is None,
        },
{
    let mut url = url::Url::parse(url).ok()?;
    url.query_pairs_mut().append_pair(name, value);
    Some(String::from(url))
}

/// A query parameter of a request.
#[derive(Debug, Clone)]
pub struct QueryPair {
    pub name: String,
    pub value: String,
}

impl View for QueryPair {
    type V = (Seq<char>, Seq<char>);

    open spec fn view(&self) -> (Seq<char>, Seq<char>) {
        (self.name@, self.value@)
    }
}

impl DeepView for QueryPair {
    type V = (Seq<char>, Seq<char>);

    open spec fn deep_view(&self) -> (Seq<char>, Seq<char>) {
        self@
    }
}

/// Whether the pair can be added to the address written in `url` without
/// passing the length that an address can have: the address as the `url`
/// crate holds it once it has read the text, the pair with each of its bytes
/// taking up to three once escaped, and the two signs that join them. A text
/// that is no address has nothing added to it, so any pair fits.
pub open spec fn pair_fits(url: Seq<char>, name: Seq<char>, value: Seq<char>) -> bool {
    match url_parsed(url) {
        Some(held) => encode_utf8(held).len() + 3 * (encode_utf8(name).len() + encode_utf8(
            value,
        ).len()) + 2 <= MAX_URL_BYTES,
        None => true,
    }
}

/// The address `url` with the pairs added to its query one after another;
/// `None` where there is no address to start with, where a pair does not
/// fit, or where what has been built is no address.
pub open spec fn url_with_pairs(
    url: Option<Seq<char>>,
    pairs: Seq<(Seq<char>, Seq<char>)>,
) -> Option<Seq<char>>
    decreases pairs.len(),
{
    if pairs.len() == 0 {
        url
    } else {
        match url_with_pairs(url, pairs.drop_last()) {
            Some(so_far) => {
                let pair = pairs.last();
                if pair_fits(so_far, pair.0, pair.1) {
                    url_with_pair(so_far, pair.0, pair.1)
                } else {
                    None
                }
            },
            None => None,
        }
    }
}

/// The text of a string, if there is one.
pub open spec fn text_view(text: Option<String>) -> Option<Seq<char>> {
    match text {
        Some(text) => Some(text@),
        None => None,
    }
}

/// The address of a request: `path` resolved against `base`, with `pairs`
/// added to the query in their order.
pub open spec fn request_address(
    base: Seq<char>,
    path: Seq<char>,
    pairs: Seq<(Seq<char>, Seq<char>)>,
) -> Option<Seq<char>> {
    url_with_pairs(url_joined(base, path), pairs)
}

/// Builds the address of a request.
pub fn request_url(base: &str, path: &str, pairs: &Vec<QueryPair>) -> (r: Option<String>)
    ensures
        text_view(r) == request_address(base@, path@, pairs.deep_view()),
{
    let mut url = match join_url(base, path) {
        Some(url) => url,
        None => {
            proof {
                lemma_no_address_stays_none(pairs.deep_view());
            }
            return None;
        },
    };
    let mut i: usize = 0;
    while i < pairs.len()
        invariant
            i <= pairs.len(),
            Some(url@) == url_with_pairs(url_joined(base@, path@), pairs.deep_view().take(i as int)),
        decreases pairs.len() - i,
    {
        let pair = &pairs[i];
        proof {
            assert(pairs.deep_view().take(i + 1).drop_last() =~= pairs.deep_view().take(i as int));
            assert(pairs.deep_view().take(i + 1).last() == pairs@[i as int]@);
        }
        let name_bytes = pair.name.as_str().as_bytes().len() as u128;
        let value_bytes = pair.value.as_str().as_bytes().len() as u128;
        let room = match normalized_url(url.as_str()) {
            Some(held) => held.as_str().as_bytes().len() as u128 + 3 * (name_bytes + value_bytes)
                + 2 <= MAX_URL_BYTES as u128,
            None => true,
        };
        let extended = if room {
            append_query_pair(url.as_str(), pair.name.as_str(), pair.value.as_str())
        } else {
            None
        };
        match extended {
            Some(next) => {
                url = next;
            },
            None => {
                proof {
                    lemma_failed_prefix_fails(url_joined(base@, path@), pairs.deep_view(), i + 1);
                }
                return None;
            },
        }
        i += 1;
    }
    assert(pairs.deep_view().take(pairs.len() as int) =~= pairs.deep_view());
    Some(url)
}

/// Without an address to start with, no pairs make one.
proof fn lemma_no_address_stays_none(pairs: Seq<(Seq<char>, Seq<char>)>)
    ensures
        url_with_pairs(None, pairs) is None,
    decreases pairs.len(),
{
    if pairs.len() > 0 {
        lemma_no_address_stays_none(pairs.drop_last());
    }
}

/// Once the first `k` pairs have failed to give an address, all of them fail.
proof fn lemma_failed_prefix_fails(url: Option<Seq<char>>, pairs: Seq<(Seq<char>, Seq<char>)>, k: int)
    requires
        0 <= k <= pairs.len(),
        url_with_pairs(url, pairs.take(k)) is None,
    ensures
        url_with_pairs(url, pairs) is None,
    decreases pairs.len() - k,
{
    if k < pairs.len() {
        assert(pairs.take(k + 1).drop_last() =~= pairs.take(k));
        lemma_failed_prefix_fails(url, pairs, k + 1);
    } else {
        assert(pairs.take(k) =~= pairs);
    }
}

} // verus!
