//! The response body as a lazy, single-pass, forward-only sequence of
//! payloads, with non-destructive inspection of the next payload.
//!
//! An outermost stage must fix transport metadata (status, headers)
//! before any body byte is written, yet the deciding fact may sit in the
//! first payload.  [`PayloadStream::peek`] exposes that payload without
//! consuming it: peeking takes a shared reference, so it cannot change
//! the stream, and iteration afterwards still yields every payload in
//! arrival order.

use vstd::prelude::*;
use crate::payload::{Payload, PayloadV};

verus! {

/// The models of a sequence of payloads.
pub open spec fn payload_views(s: Seq<Payload>) -> Seq<PayloadV> {
    s.map_values(|p: Payload| p@)
}

/// A single-pass stream of response payloads.  The view is the sequence
/// of payloads not yet consumed; once drained, the stream is exhausted
/// and cannot be restarted.
#[derive(Debug)]
pub struct PayloadStream {
    items: Vec<Payload>,
}

impl View for PayloadStream {
    type V = Seq<PayloadV>;

    closed spec fn view(&self) -> Seq<PayloadV> {
        payload_views(self.items@)
    }
}

impl PayloadStream {
    /// A stream that will deliver exactly `items`, in order.
    pub fn from_payloads(items: Vec<Payload>) -> (r: PayloadStream)
        ensures
            r@ == payload_views(items@),
    {
        PayloadStream { items }
    }

    /// An already-exhausted stream.
    pub fn empty() -> (r: PayloadStream)
        ensures
            r@ == Seq::<PayloadV>::empty(),
    {
        let r = PayloadStream { items: Vec::new() };
        proof {
            assert(r@ =~= Seq::<PayloadV>::empty());
        }
        r
    }

    /// How many payloads are still to come.
    pub fn remaining(&self) -> (r: usize)
        ensures
            r == self@.len(),
    {
        self.items.len()
    }

    /// The next payload, without consuming it.  Peeking twice without an
    /// intervening consume sees the same payload; the shared borrow
    /// guarantees the stream itself is untouched.
    pub fn peek(&self) -> (r: Option<&Payload>)
        ensures
            match r {
                Some(p) => self@.len() > 0 && p@ == self@.first(),
                None => self@.len() == 0,
            },
    {
        if self.items.len() > 0 {
            Some(&self.items[0])
        } else {
            None
        }
    }

    /// Consume and return the next payload: exactly the one a preceding
    /// [`Self::peek`] saw, leaving the rest in order.
    pub fn next(&mut self) -> (r: Option<Payload>)
        ensures
            match r {
                Some(p) => old(self)@.len() > 0 && p@ == old(self)@.first() && final(self)@
                    == old(self)@.drop_first(),
                None => old(self)@.len() == 0 && final(self)@ == old(self)@,
            },
    {
        if self.items.len() > 0 {
            let p = self.items.remove(0);
            proof {
                assert(final(self)@ =~= old(self)@.drop_first());
            }
            Some(p)
        } else {
            None
        }
    }

    /// Consume the whole stream, returning every remaining payload in
    /// arrival order and leaving the stream exhausted.
    pub fn drain(&mut self) -> (r: Vec<Payload>)
        ensures
            payload_views(r@) == old(self)@,
            final(self)@ == Seq::<PayloadV>::empty(),
    {
        let mut out: Vec<Payload> = Vec::new();
        proof {
            assert(payload_views(out@) + self@ =~= old(self)@);
        }
        loop
            invariant
                payload_views(out@) + self@ == old(self)@,
            ensures
                payload_views(out@) == old(self)@,
                self@.len() == 0,
            decreases self@.len(),
        {
            let ghost prev_out = out@;
            let ghost prev_rest = self@;
            match self.next() {
                Some(p) => {
                    out.push(p);
                    proof {
                        assert(payload_views(out@) =~= payload_views(prev_out).push(p@));
                        assert(payload_views(out@) + self@ =~= (payload_views(prev_out)
                            + prev_rest));
                    }
                },
                None => {
                    proof {
                        assert(payload_views(out@) + self@ =~= payload_views(out@));
                    }
                    break;
                },
            }
        }
        proof {
            assert(self@ =~= Seq::<PayloadV>::empty());
        }
        out
    }
}

} // verus!
