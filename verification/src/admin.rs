use crate::error::ContractError;
use vstd::prelude::*;

verus! {

/// Who administers the contract.
///
/// Admin rights move in two steps: the admin names a candidate
/// (`Transferring`), and the candidate claims them (`Settled` again). Until
/// the claim, the previous admin keeps its rights and may cancel.
#[derive(Debug, Clone, PartialEq, Eq)]
pub enum Admin {
    Settled { current: String },
    Transferring { from: String, to: String },
}

impl Admin {
    /// The address that holds admin rights now.
    pub open spec fn current_admin(self) -> String {
        match self {
            Admin::Settled { current } => current,
            Admin::Transferring { from, .. } => from,
        }
    }

    /// The address that may claim admin rights, if a hand-over is under way.
    pub open spec fn pending_candidate(self) -> Option<String> {
        match self {
            Admin::Settled { .. } => None,
            Admin::Transferring { to, .. } => Some(to),
        }
    }

    /// What `transfer` answers when `sender` asks to hand the rights to `to`.
    pub open spec fn transfer_result(self, sender: Seq<char>, to: String) -> Result<Admin, ContractError> {
        if sender == self.current_admin()@ {
            Ok(Admin::Transferring { from: self.current_admin(), to })
        } else {
            Err(ContractError::Unauthorized {})
        }
    }

    /// What `claim` answers when `sender` claims the rights.
    pub open spec fn claim_result(self, sender: Seq<char>) -> Result<Admin, ContractError> {
        match self.pending_candidate() {
            Some(candidate) => if sender == candidate@ {
                Ok(Admin::Settled { current: candidate })
            } else {
                Err(ContractError::Unauthorized {})
            },
            None => Err(ContractError::Unauthorized {}),
        }
    }

    /// What `cancel_transfer` answers when `sender` calls a hand-over off.
    pub open spec fn cancel_result(self, sender: Seq<char>) -> Result<Admin, ContractError> {
        if sender == self.current_admin()@ {
            Ok(Admin::Settled { current: self.current_admin() })
        } else {
            Err(ContractError::Unauthorized {})
        }
    }

    /// The address that holds admin rights now.
    pub fn admin(&self) -> (r: &String)
        ensures
            *r == self.current_admin(),
    {
        match self {
            Admin::Settled { current } => current,
            Admin::Transferring { from, to: _ } => from,
        }
    }

    /// The candidate of a hand-over under way, if any.
    pub fn candidate(&self) -> (r: Option<&String>)
        ensures
            match r {
                Some(c) => self.pending_candidate() == Some(*c),
                None => self.pending_candidate() is None,
            },
    {
        match self {
            Admin::Settled { current: _ } => None,
            Admin::Transferring { from: _, to } => Some(to),
        }
    }

    /// Names `to` as the candidate; only the current admin may do so. A new
    /// transfer replaces the candidate of one under way.
    pub fn transfer(self, sender: &String, to: String) -> (r: Result<Admin, ContractError>)
        ensures
            r == self.transfer_result(sender@, to),
            sender@ == self.current_admin()@ ==> r == Ok::<Admin, ContractError>(
                Admin::Transferring { from: self.current_admin(), to },
            ),
            sender@ != self.current_admin()@ ==> r == Err::<Admin, ContractError>(
                ContractError::Unauthorized {},
            ),
    {
        if *sender != *self.admin() {
            return Err(ContractError::Unauthorized {});
        }
        match self {
            Admin::Settled { current: address } => Ok(Admin::Transferring { from: address, to }),
            Admin::Transferring { from, to: _ } => Ok(Admin::Transferring { from, to }),
        }
    }

    /// The candidate takes over the admin rights; nobody else may claim them.
    pub fn claim(self, sender: &String) -> (r: Result<Admin, ContractError>)
        ensures
            r == self.claim_result(sender@),
            self matches Admin::Transferring { to, .. } ==> (sender@ == to@ ==> r == Ok::<
                Admin,
                ContractError,
            >(Admin::Settled { current: to })),
            self matches Admin::Transferring { to, .. } ==> (sender@ != to@ ==> r == Err::<
                Admin,
                ContractError,
            >(ContractError::Unauthorized {})),
            self is Settled ==> r == Err::<Admin, ContractError>(ContractError::Unauthorized {}),
    {
        let is_candidate = match self.candidate() {
            Some(candidate) => *sender == *candidate,
            None => false,
        };
        if !is_candidate {
            return Err(ContractError::Unauthorized {});
        }
        match self {
            Admin::Transferring { from: _, to } => Ok(Admin::Settled { current: to }),
            admin => Ok(admin),
        }
    }

    /// The current admin calls a hand-over off and stays admin.
    pub fn cancel_transfer(self, sender: &String) -> (r: Result<Admin, ContractError>)
        ensures
            r == self.cancel_result(sender@),
            sender@ == self.current_admin()@ ==> r == Ok::<Admin, ContractError>(
                Admin::Settled { current: self.current_admin() },
            ),
            sender@ != self.current_admin()@ ==> r == Err::<Admin, ContractError>(
                ContractError::Unauthorized {},
            ),
    {
        if *sender != *self.admin() {
            return Err(ContractError::Unauthorized {});
        }
        match self {
            Admin::Transferring { from, to: _ } => Ok(Admin::Settled { current: from }),
            admin => Ok(admin),
        }
    }
}

/// A transfer by the admin followed by the candidate's claim leaves the
/// candidate as the settled admin, whatever the state was before.
pub proof fn lemma_transfer_then_claim(a: Admin, to: String)
    ensures
        a.transfer_result(a.current_admin()@, to) is Ok,
        a.transfer_result(a.current_admin()@, to)->Ok_0.claim_result(to@) == Ok::<
            Admin,
            ContractError,
        >(Admin::Settled { current: to }),
{
}

/// Cancelling right after a transfer leaves the admin settled where it was.
pub proof fn lemma_transfer_then_cancel(a: Admin, to: String)
    ensures
        a.transfer_result(a.current_admin()@, to)->Ok_0.cancel_result(a.current_admin()@)
            == Ok::<Admin, ContractError>(Admin::Settled { current: a.current_admin() }),
{
}

/// Neither naming a candidate nor cancelling a hand-over moves the admin rights.
pub proof fn lemma_admin_kept_until_claim(a: Admin, sender: Seq<char>, to: String)
    ensures
        a.transfer_result(sender, to) matches Ok(b) ==> b.current_admin() == a.current_admin(),
        a.cancel_result(sender) matches Ok(b) ==> b.current_admin() == a.current_admin(),
        a.cancel_result(sender) matches Ok(b) ==> b.pending_candidate() is None,
{
}

/// Until it claims, a candidate other than the admin has no admin rights: it
/// can neither name another candidate nor cancel.
pub proof fn lemma_candidate_powerless_before_claim(a: Admin, to: String, other: String)
    requires
        to@ != a.current_admin()@,
    ensures
        a.transfer_result(a.current_admin()@, to)->Ok_0.transfer_result(to@, other)
            == Err::<Admin, ContractError>(ContractError::Unauthorized {}),
        a.transfer_result(a.current_admin()@, to)->Ok_0.cancel_result(to@) == Err::<
            Admin,
            ContractError,
        >(ContractError::Unauthorized {}),
{
}

/// Once a candidate other than the admin has claimed, the previous admin has
/// lost its rights and cannot claim them back.
pub proof fn lemma_previous_admin_powerless_after_claim(a: Admin, to: String, other: String)
    requires
        to@ != a.current_admin()@,
    ensures
        ({
            let b = a.transfer_result(a.current_admin()@, to)->Ok_0.claim_result(to@)->Ok_0;
            &&& b.transfer_result(a.current_admin()@, other) == Err::<Admin, ContractError>(
                ContractError::Unauthorized {},
            )
            &&& b.cancel_result(a.current_admin()@) == Err::<Admin, ContractError>(
                ContractError::Unauthorized {},
            )
            &&& b.claim_result(a.current_admin()@) == Err::<Admin, ContractError>(
                ContractError::Unauthorized {},
            )
        }),
{
}

/// A settled admin has no candidate, so every claim is refused.
pub proof fn lemma_no_claim_when_settled(current: String, sender: Seq<char>)
    ensures
        (Admin::Settled { current }).claim_result(sender) == Err::<Admin, ContractError>(
            ContractError::Unauthorized {},
        ),
{
}

} // verus!
