use vstd::prelude::*;

verus! {

/// HTTP status with which the datastore answers a successful fetch.
pub const STATUS_OK: u16 = 200;

/// Why a record could not be had from the datastore.
#[derive(PartialEq, Eq, Structural, Clone, Copy, Debug)]
pub enum FetchError {
    /// The datastore answered with another status than success.
    Unavailable,
    /// The datastore answered with success, but the record did not fit its schema.
    Malformed,
}

/// The outcome of a fetch that the datastore answered with `status`, where
/// `parsed` is the record read from its body (`None` where the body held none).
pub fn fetch_outcome<T>(status: u16, parsed: Option<T>) -> (r: Result<T, FetchError>)
    ensures
        status != STATUS_OK ==> r == Err::<T, FetchError>(FetchError::Unavailable),
        status == STATUS_OK ==> match parsed {
            Option::Some(v) => r == Ok::<T, FetchError>(v),
            Option::None => r == Err::<T, FetchError>(FetchError::Malformed),
        },
{
    if status != STATUS_OK {
        Err(FetchError::Unavailable)
    } else {
        match parsed {
            Option::Some(v) => Ok(v),
            Option::None => Err(FetchError::Malformed),
        }
    }
}

/// The records that were found, in order, skipping those whose fetch failed.
pub open spec fn found_of<T>(results: Seq<Option<T>>) -> Seq<T>
    decreases results.len(),
{
    if results.len() == 0 {
        Seq::empty()
    } else {
        match results[0] {
            Option::Some(s) => seq![s] + found_of(results.drop_first()),
            Option::None => found_of(results.drop_first()),
        }
    }
}

/// Keeps the records (such as a playlist's songs) that were found, in order.
pub fn found_records<T>(results: Vec<Option<T>>) -> (r: Vec<T>)
    ensures
        r@ == found_of(results@),
{
    let ghost original = results@;
    let mut results = results;
    let mut out: Vec<T> = Vec::new();
    while results.len() > 0
        invariant
            out@ + found_of(results@) == found_of(original),
        decreases results@.len(),
    {
        let ghost before = results@;
        let item = results.remove(0);
        assert(before.drop_first() =~= results@);
        match item {
            Option::Some(s) => {
                assert(out@.push(s) + found_of(results@) =~= out@ + (seq![s] + found_of(results@)));
                out.push(s);
            },
            Option::None => {},
        }
    }
    assert(results@.len() == 0);
    assert(out@ + found_of(results@) =~= out@);
    out
}

} // verus!
