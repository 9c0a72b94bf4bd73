//! Web addresses and the pairs in their query.

use vstd::prelude::*;

verus! {

/// A list of named values.
pub open spec fn pairs_view(pairs: Seq<(String, String)>) -> Seq<(Seq<char>, Seq<char>)> {
    pairs.map_values(|pair: (String, String)| (pair.0@, pair.1@))
}

/// The address `base` with `pairs` appended to its query, or why `base` is no address.
pub uninterp spec fn address_with_query(
    base: Seq<char>,
    pairs: Seq<(Seq<char>, Seq<char>)>,
) -> Result<Seq<char>, Seq<char>>;

/// `url::Url::parse`, `Url::query_pairs_mut` with `append_pair` for each pair in
/// order, and `Url::as_str`. The length of the base has to fit in 32 bits when it is
/// percent-encoded. It has no fragment, which would be put back behind the query and
/// would have to begin within 32 bits too.
#[verifier::external_body]
pub(crate) fn append_query(base: &str, pairs: &Vec<(String, String)>) -> (r: Result<String, String>)
    requires
        base@.len() < 0x1000_0000,
        !base@.contains('#'),
    ensures
        match r {
            Ok(address) => address_with_query(base@, pairs_view(pairs@)) == Ok::<_, Seq<char>>(
                address@,
            ),
            Err(message) => address_with_query(base@, pairs_view(pairs@)) == Err::<Seq<char>, _>(
                message@,
            ),
        },
{
    let mut address = url::Url::parse(base).map_err(|error| error.to_string())?;
    address.query_pairs_mut().extend_pairs(pairs.iter());
    Ok(address.as_str().to_owned())
}

/// The pairs in the query of `address`, in order, or why it is no address.
pub uninterp spec fn query_of(address: Seq<char>) -> Result<
    Seq<(Seq<char>, Seq<char>)>,
    Seq<char>,
>;

/// `url::Url::parse`, then `Url::query_pairs`: the decoded pairs of an address's query.
#[verifier::external_body]
pub(crate) fn read_query(address: &str) -> (r: Result<Vec<(String, String)>, String>)
    ensures
        match r {
            Ok(pairs) => query_of(address@) == Ok::<_, Seq<char>>(pairs_view(pairs@)),
            Err(message) => query_of(address@) == Err::<Seq<(Seq<char>, Seq<char>)>, _>(message@),
        },
{
    url::Url::parse(address)
        .map(|parsed| parsed.query_pairs().into_owned().collect())
        .map_err(|error| error.to_string())
}

} // verus!
