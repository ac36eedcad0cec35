//! The multi-signature admin council shared by the contracts, and which of its
//! members a council-gated call asks to authorize.

use vstd::prelude::*;

verus! {

/// A multi-signature admin council requiring threshold approvals.
#[derive(Clone, Debug, PartialEq, Eq)]
pub struct AdminCouncil {
    /// Council member account ids (max 10).
    pub members: Vec<u64>,
    /// Minimum number of members required to authorize a sensitive action.
    pub threshold: u32,
}

/// The council as a mathematical value.
pub struct AdminCouncilView {
    pub members: Seq<u64>,
    pub threshold: u32,
}

impl View for AdminCouncil {
    type V = AdminCouncilView;

    open spec fn view(&self) -> AdminCouncilView {
        AdminCouncilView { members: self.members@, threshold: self.threshold }
    }
}

/// The members a council-gated call asks to authorize, and whether their
/// approvals suffice for the call to go ahead.
#[derive(Clone, Debug, PartialEq, Eq)]
pub struct CouncilApproval {
    /// The members asked, in order.
    pub signers: Vec<u64>,
    /// Whether the approvals asked for reach the council's threshold.
    pub sufficient: bool,
}

/// How many members, taken in order, are asked to authorize: members are asked
/// one after the other until `threshold` of them have been asked, and at least
/// the first member is always asked.
pub open spec fn signer_count(members_len: int, threshold: u32) -> int {
    let wanted: int = if threshold == 0 { 1 } else { threshold as int };
    if members_len < wanted { members_len } else { wanted }
}

/// A council-gated call that goes ahead asks at least `threshold` members,
/// never more members than the council has, and always at least one member
/// of a non-empty council.
pub proof fn lemma_signers_reach_threshold(members_len: int, threshold: u32)
    requires
        members_len >= threshold,
    ensures
        signer_count(members_len, threshold) >= threshold,
        signer_count(members_len, threshold) <= members_len,
        members_len >= 1 ==> signer_count(members_len, threshold) >= 1,
{
}

impl AdminCouncil {
    /// A council of one member whose single approval suffices.
    pub fn single(admin: u64) -> (c: Self)
        ensures
            c@.members == seq![admin],
            c@.threshold == 1,
    {
        let mut members: Vec<u64> = Vec::new();
        members.push(admin);
        AdminCouncil { members, threshold: 1 }
    }

    /// A copy of this council.
    pub fn duplicate(&self) -> (c: Self)
        ensures
            c@ == self@,
    {
        let mut members: Vec<u64> = Vec::new();
        let n = self.members.len();
        for i in 0..n
            invariant
                n == self.members@.len(),
                members@ == self.members@.take(i as int),
        {
            members.push(self.members[i]);
            assert(self.members@.take(i + 1) == self.members@.take(i as int).push(self.members@[i as int]));
        }
        assert(self.members@.take(n as int) == self.members@);
        AdminCouncil { members, threshold: self.threshold }
    }

    /// Which members a council-gated call asks to authorize, in the order in
    /// which they are asked, and whether their approvals suffice. Members are
    /// asked one after the other until `threshold` have been asked; where the
    /// council has fewer members than its threshold, every member is asked and
    /// the approvals do not suffice, so the call is refused ("Insufficient
    /// approvals").
    pub fn required_signers(&self) -> (r: CouncilApproval)
        ensures
            r.signers@ == self@.members.take(signer_count(self@.members.len() as int, self@.threshold)),
            r.sufficient <==> self@.members.len() >= self@.threshold,
            !r.sufficient ==> r.signers@ == self@.members,
    {
        let n = self.members.len();
        let threshold = self.threshold as usize;
        let mut signers: Vec<u64> = Vec::new();
        let mut i: usize = 0;
        while i < n && (i == 0 || i < threshold)
            invariant
                n == self.members@.len(),
                threshold == self.threshold,
                i as int <= signer_count(n as int, self.threshold),
                signers@ == self.members@.take(i as int),
            decreases n - i,
        {
            signers.push(self.members[i]);
            assert(self.members@.take(i + 1) == self.members@.take(i as int).push(self.members@[i as int]));
            i = i + 1;
        }
        assert(i < threshold ==> self.members@.take(i as int) == self.members@);
        CouncilApproval { signers, sufficient: i >= threshold }
    }
}

} // verus!
