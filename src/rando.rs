use crate::error::Error;
use crate::my_result::MyResult;
use std::marker::PhantomData;
use vstd::prelude::*;

verus! {

/// The most values that one batch holds.
pub const BATCH_CAP: usize = 32;

/// A Unicode scalar value: a code point outside the surrogate range.
pub open spec fn is_scalar_value(c: char) -> bool {
    (c as u32) < 0xD800 || (0xDFFF < (c as u32) && (c as u32) < 0x11_0000)
}

/// The smaller of two integers.
pub open spec fn min_int(a: int, b: int) -> int {
    if a <= b {
        a
    } else {
        b
    }
}

/// Relies on rand::random with the Standard distribution for char, which
/// draws uniformly from the Unicode scalar values.
#[verifier::external_body]
fn draw_char() -> (c: char)
    ensures
        is_scalar_value(c),
{
    rand::random::<char>()
}

/// Relies on rand::random with the Standard distribution for an array of
/// `BATCH_CAP` chars, each drawn as `draw_char` draws one.
#[verifier::external_body]
fn draw_char_batch() -> (r: Vec<char>)
    ensures
        r@.len() == BATCH_CAP,
        forall|i: int| 0 <= i < r@.len() ==> is_scalar_value(#[trigger] r@[i]),
{
    rand::random::<[char; 32]>().to_vec()
}

/// The first `len` values of `batch`, or all of them where it holds fewer.
pub fn first_items(batch: &Vec<char>, len: usize) -> (r: Vec<char>)
    ensures
        r@ == batch@.take(min_int(len as int, batch@.len() as int)),
{
    let n: usize = if len <= batch.len() { len } else { batch.len() };
    let mut r: Vec<char> = Vec::new();
    let mut i: usize = 0;
    while i < n
        invariant
            n <= batch@.len(),
            n == min_int(len as int, batch@.len() as int),
            i <= n,
            r@ == batch@.take(i as int),
        decreases n - i,
    {
        r.push(batch[i]);
        i = i + 1;
        proof {
            assert(r@ =~= batch@.take(i as int));
        }
    }
    r
}

/// Batches of random chars, shared by every producer.
pub trait GetRandoStuff {
    /// `min(len, BATCH_CAP)` random chars: asking for more than a batch holds
    /// gives a full batch.
    fn get_random_vec(&self, len: usize) -> (r: Vec<char>)
        ensures
            r@.len() == min_int(len as int, BATCH_CAP as int),
            forall|i: int| 0 <= i < r@.len() ==> is_scalar_value(#[trigger] r@[i]),
    {
        let batch = draw_char_batch();
        first_items(&batch, len)
    }
}

/// A stateless producer of random values of type `T`.
pub struct RandoA<T> {
    phantom_data: PhantomData<T>,
}

impl RandoA<char> {
    pub fn new() -> (r: Self) {
        RandoA { phantom_data: PhantomData }
    }

    /// One random char.
    pub fn get_random_item(&self) -> (r: char)
        ensures
            is_scalar_value(r),
    {
        draw_char()
    }
}

impl GetRandoStuff for RandoA<char> {

}

/// What the guard reports for `item` when `last` was the value drawn before
/// it: a failure exactly when the two are equal.
pub open spec fn guard_outcome(last: Option<char>, item: char) -> MyResult<char, Error> {
    if last == Some(item) {
        MyResult::Failure(Error::ConsecutiveRandom)
    } else {
        MyResult::Success(item)
    }
}

/// A producer of random values that reports a failure whenever a draw equals
/// the one just before it.
pub struct RandoB<T> {
    last_item: Option<T>,
}

impl RandoB<char> {
    /// The most recent draw, if any has been made.
    pub closed spec fn last(&self) -> Option<char> {
        self.last_item
    }

    /// A guard that has drawn nothing yet.
    pub fn new() -> (r: Self)
        ensures
            r.last() == None::<char>,
    {
        RandoB { last_item: None }
    }

    /// The most recent draw, if any has been made.
    pub fn last_item(&self) -> (r: Option<char>)
        ensures
            r == self.last(),
    {
        self.last_item
    }

    /// Takes `item` as the next draw: it becomes the last item, and the
    /// result is a failure exactly when it equals the draw before it.
    pub fn check_item(&mut self, item: char) -> (r: MyResult<char, Error>)
        ensures
            final(self).last() == Some(item),
            r == guard_outcome(old(self).last(), item),
    {
        let prev = self.last_item;
        self.last_item = Some(item);
        match prev {
            Some(p) => {
                if p == item {
                    MyResult::Failure(Error::ConsecutiveRandom)
                } else {
                    MyResult::Success(item)
                }
            },
            None => MyResult::Success(item),
        }
    }

    /// Draws one random char and checks it against the draw before it.
    pub fn get_random_item(&mut self) -> (r: MyResult<char, Error>)
        ensures
            final(self).last() is Some,
            is_scalar_value(final(self).last()->Some_0),
            r == guard_outcome(old(self).last(), final(self).last()->Some_0),
    {
        let item = draw_char();
        self.check_item(item)
    }
}

impl GetRandoStuff for RandoB<char> {

}

/// A guard that has drawn nothing (as `RandoB::new` leaves it) reports
/// success on its first draw, whatever that draw is.
pub proof fn lemma_first_draw_succeeds(guard: RandoB<char>, item: char)
    requires
        guard.last() == None::<char>,
    ensures
        guard_outcome(guard.last(), item) == MyResult::<char, Error>::Success(item),
{
}

/// Two consecutive draws give a `ConsecutiveRandom` failure when they are
/// equal, and a success carrying the second draw when they differ.
pub proof fn lemma_consecutive_draws(prev: char, item: char)
    ensures
        prev == item ==> guard_outcome(Some(prev), item) == MyResult::<char, Error>::Failure(
            Error::ConsecutiveRandom,
        ),
        prev != item ==> guard_outcome(Some(prev), item) == MyResult::<char, Error>::Success(item),
{
}

} // verus!
