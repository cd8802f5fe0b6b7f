//! Tags: the short symbols that name contract types, payment states,
//! penalties and cancellation reasons.
use vstd::prelude::*;
use crate::bytes::{bytes_equal, copy_bytes};

verus! {

/// A short symbol, held as the bytes of its text.
#[derive(Debug)]
pub struct Tag {
    pub text: Vec<u8>,
}

impl View for Tag {
    type V = Seq<u8>;

    open spec fn view(&self) -> Seq<u8> {
        self.text@
    }
}

/// `CONS`: a construction contract, paid out by milestones.
pub open spec fn construction_text() -> Seq<u8> {
    seq![0x43u8, 0x4f, 0x4e, 0x53]
}

/// `TUIT`: a tuition contract, paid by installments.
pub open spec fn tuition_text() -> Seq<u8> {
    seq![0x54u8, 0x55, 0x49, 0x54]
}

/// `REPL`: a loan granted against reputation.
pub open spec fn reputation_lending_text() -> Seq<u8> {
    seq![0x52u8, 0x45, 0x50, 0x4c]
}

/// `PEND`: a payment not settled yet.
pub open spec fn payment_pending_text() -> Seq<u8> {
    seq![0x50u8, 0x45, 0x4e, 0x44]
}

/// `CANC`: a payment cancelled, which cancels the commitment too.
pub open spec fn payment_cancelled_text() -> Seq<u8> {
    seq![0x43u8, 0x41, 0x4e, 0x43]
}

/// `FRAU`: the penalty for fraud.
pub open spec fn fraud_text() -> Seq<u8> {
    seq![0x46u8, 0x52, 0x41, 0x55]
}

/// `BREA`: the penalty for a breach.
pub open spec fn breach_text() -> Seq<u8> {
    seq![0x42u8, 0x52, 0x45, 0x41]
}

/// `PENDING`: the penalty of a dispute not resolved yet.
pub open spec fn penalty_pending_text() -> Seq<u8> {
    seq![0x50u8, 0x45, 0x4e, 0x44, 0x49, 0x4e, 0x47]
}

/// `MUTUAL`: a cancellation both parties agreed to.
pub open spec fn mutual_text() -> Seq<u8> {
    seq![0x4du8, 0x55, 0x54, 0x55, 0x41, 0x4c]
}

/// `FORCE_MAJ`: a cancellation for force majeure.
pub open spec fn force_majeure_text() -> Seq<u8> {
    seq![0x46u8, 0x4f, 0x52, 0x43, 0x45, 0x5f, 0x4d, 0x41, 0x4a]
}

impl Tag {
    /// The tag whose text is `text`.
    pub fn new(text: Vec<u8>) -> (t: Tag)
        ensures
            t@ == text@,
    {
        Tag { text }
    }

    /// Whether two tags have the same text.
    pub fn same_as(&self, other: &Tag) -> (r: bool)
        ensures
            r == (self@ == other@),
    {
        bytes_equal(&self.text, &other.text)
    }

    /// A copy of this tag.
    pub fn duplicate(&self) -> (t: Tag)
        ensures
            t@ == self@,
    {
        Tag { text: copy_bytes(&self.text) }
    }

    pub fn construction() -> (t: Tag)
        ensures
            t@ == construction_text(),
    {
        let t = Tag { text: vec![0x43u8, 0x4f, 0x4e, 0x53] };
        assert(t@ =~= construction_text());
        t
    }

    pub fn tuition() -> (t: Tag)
        ensures
            t@ == tuition_text(),
    {
        let t = Tag { text: vec![0x54u8, 0x55, 0x49, 0x54] };
        assert(t@ =~= tuition_text());
        t
    }

    pub fn reputation_lending() -> (t: Tag)
        ensures
            t@ == reputation_lending_text(),
    {
        let t = Tag { text: vec![0x52u8, 0x45, 0x50, 0x4c] };
        assert(t@ =~= reputation_lending_text());
        t
    }

    pub fn payment_pending() -> (t: Tag)
        ensures
            t@ == payment_pending_text(),
    {
        let t = Tag { text: vec![0x50u8, 0x45, 0x4e, 0x44] };
        assert(t@ =~= payment_pending_text());
        t
    }

    pub fn payment_cancelled() -> (t: Tag)
        ensures
            t@ == payment_cancelled_text(),
    {
        let t = Tag { text: vec![0x43u8, 0x41, 0x4e, 0x43] };
        assert(t@ =~= payment_cancelled_text());
        t
    }

    pub fn fraud() -> (t: Tag)
        ensures
            t@ == fraud_text(),
    {
        let t = Tag { text: vec![0x46u8, 0x52, 0x41, 0x55] };
        assert(t@ =~= fraud_text());
        t
    }

    pub fn breach() -> (t: Tag)
        ensures
            t@ == breach_text(),
    {
        let t = Tag { text: vec![0x42u8, 0x52, 0x45, 0x41] };
        assert(t@ =~= breach_text());
        t
    }

    pub fn penalty_pending() -> (t: Tag)
        ensures
            t@ == penalty_pending_text(),
    {
        let t = Tag { text: vec![0x50u8, 0x45, 0x4e, 0x44, 0x49, 0x4e, 0x47] };
        assert(t@ =~= penalty_pending_text());
        t
    }

    pub fn mutual() -> (t: Tag)
        ensures
            t@ == mutual_text(),
    {
        let t = Tag { text: vec![0x4du8, 0x55, 0x54, 0x55, 0x41, 0x4c] };
        assert(t@ =~= mutual_text());
        t
    }

    pub fn force_majeure() -> (t: Tag)
        ensures
            t@ == force_majeure_text(),
    {
        let t = Tag { text: vec![0x46u8, 0x4f, 0x52, 0x43, 0x45, 0x5f, 0x4d, 0x41, 0x4a] };
        assert(t@ =~= force_majeure_text());
        t
    }
}

} // verus!
