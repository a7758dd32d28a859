use std::num::ParseIntError;
use vstd::prelude::*;

verus! {

/// The value of a non-empty string of decimal digits.
pub open spec fn digits_value(cs: Seq<char>) -> int
    decreases cs.len(),
{
    if cs.len() == 0 {
        0
    } else {
        digits_value(cs.drop_last()) * 10 + (cs.last() as int - 48)
    }
}

/// The text is one or more decimal digits.
pub open spec fn all_digits(cs: Seq<char>) -> bool {
    cs.len() > 0 && forall|i: int| 0 <= i < cs.len() ==> '0' <= #[trigger] cs[i] <= '9'
}

/// What `u64::from_str` gives for the text: an optional `+` sign followed by
/// one or more decimal digits whose value fits in 64 bits, else nothing.
pub open spec fn decimal_u64(cs: Seq<char>) -> Option<u64> {
    let digits = if cs.len() > 0 && cs[0] == '+' {
        cs.drop_first()
    } else {
        cs
    };
    if all_digits(digits) && digits_value(digits) <= u64::MAX {
        Some(digits_value(digits) as u64)
    } else {
        None
    }
}

#[verifier::external_type_specification]
#[verifier::external_body]
pub struct ExParseIntError(ParseIntError);

/// `str::parse::<u64>` of std: the value of the text as `u64::from_str`
/// reads it, or an error where the text is not such a number.
#[verifier::external_body]
fn parse_u64(text: &str) -> (res: Result<u64, ParseIntError>)
    ensures
        res is Ok <==> decimal_u64(text@) is Some,
        res matches Ok(n) ==> decimal_u64(text@) == Some(n),
{
    text.parse::<u64>()
}

/// The collecting side of the throughput benchmark: it adds up the counts
/// that the workers send, and counts down the workers as each sends an
/// empty message to say that it is done.
pub struct Tally {
    count: u64,
    workers: u64,
}

impl Tally {
    /// The sum of the counts received so far.
    pub closed spec fn spec_count(&self) -> nat {
        self.count as nat
    }

    /// The number of workers that have not finished.
    pub closed spec fn spec_workers(&self) -> nat {
        self.workers as nat
    }

    /// A tally of nothing, waiting for `workers` workers.
    pub fn new(workers: u64) -> (t: Tally)
        ensures
            t.spec_count() == 0,
            t.spec_workers() == workers,
    {
        Tally { count: 0, workers }
    }

    /// Whether every worker has finished.
    pub fn is_done(&self) -> (b: bool)
        ensures
            b == (self.spec_workers() == 0),
    {
        self.workers == 0
    }

    /// The sum of the counts received.
    pub fn count(&self) -> (c: u64)
        ensures
            c == self.spec_count(),
    {
        self.count
    }

    /// Record a message from a worker: an empty one says that the worker is
    /// done; any other one holds a count to add.
    pub fn record(&mut self, msg: &str)
        requires
            old(self).spec_workers() > 0,
            msg@.len() > 0 ==> decimal_u64(msg@) is Some,
            msg@.len() > 0 ==> old(self).spec_count() + decimal_u64(msg@)->0 <= u64::MAX,
        ensures
            msg@.len() == 0 ==> final(self).spec_workers() == old(self).spec_workers() - 1
                && final(self).spec_count() == old(self).spec_count(),
            msg@.len() > 0 ==> final(self).spec_workers() == old(self).spec_workers()
                && final(self).spec_count() == old(self).spec_count() + decimal_u64(msg@)->0,
    {
        if msg.is_empty() {
            self.workers = self.workers - 1;
        } else {
            let n = parse_u64(msg).unwrap();
            self.count = self.count + n;
        }
    }
}

} // verus!
