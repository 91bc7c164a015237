use cw_ibc_proxy::admin::Admin;
use cw_ibc_proxy::ContractError;

fn addr(s: &str) -> String {
    s.to_string()
}

#[test]
fn test_current() {
    let from = addr("from");
    let to = addr("to");

    let admin = Admin::Settled {
        current: from.clone(),
    };

    assert_eq!(admin.admin(), &from);

    let admin = Admin::Transferring {
        from: from.clone(),
        to: to.clone(),
    };

    assert_eq!(admin.admin(), &from);
}

#[test]
fn test_transfer() {
    let from = addr("from");
    let to_1 = addr("to_1");
    let to_2 = addr("to_2");
    let someone_else = addr("someone_else");

    let admin = Admin::Settled {
        current: from.clone(),
    };

    // happy path
    let admin = admin.transfer(&from, to_1.clone()).unwrap();
    assert_eq!(
        admin,
        Admin::Transferring {
            from: from.clone(),
            to: to_1.clone()
        }
    );

    let admin = admin.transfer(&from, to_2.clone()).unwrap();
    assert_eq!(
        admin,
        Admin::Transferring {
            from: from.clone(),
            to: to_2.clone()
        }
    );

    // unhappy path
    let admin = admin.transfer(&someone_else, to_1.clone()).unwrap_err();
    assert_eq!(admin, ContractError::Unauthorized {});
}

#[test]
fn test_claim() {
    let from = addr("from");
    let to = addr("to");
    let someone_else = addr("someone_else");

    let admin = Admin::Settled {
        current: from.clone(),
    };

    let err = admin.claim(&to).unwrap_err();
    assert_eq!(err, ContractError::Unauthorized {});

    let admin = Admin::Transferring {
        from: from.clone(),
        to: to.clone(),
    };
    let err = admin.clone().claim(&someone_else).unwrap_err();
    assert_eq!(err, ContractError::Unauthorized {});

    let err = admin.clone().claim(&from).unwrap_err();
    assert_eq!(err, ContractError::Unauthorized {});

    let admin = admin.claim(&to).unwrap();
    assert_eq!(admin, Admin::Settled { current: to });
}

#[test]
fn test_cancel() {
    let from = addr("from");
    let to = addr("to");
    let someone_else = addr("someone_else");

    let admin = Admin::Transferring {
        from: from.clone(),
        to: to.clone(),
    };

    let err = admin.clone().cancel_transfer(&someone_else).unwrap_err();
    assert_eq!(err, ContractError::Unauthorized {});

    let err = admin.clone().cancel_transfer(&to).unwrap_err();
    assert_eq!(err, ContractError::Unauthorized {});

    let admin = admin.cancel_transfer(&from).unwrap();
    assert_eq!(admin, Admin::Settled { current: from });
}

#[test]
fn candidate_reports_pending_transfer() {
    let settled = Admin::Settled { current: addr("from") };
    assert_eq!(settled.candidate(), None);
    let transferring = Admin::Transferring { from: addr("from"), to: addr("to") };
    assert_eq!(transferring.candidate(), Some(&addr("to")));
}

#[test]
fn transfer_then_claim_hands_over() {
    let admin = Admin::Transferring { from: addr("a"), to: addr("b") };
    let admin = admin.transfer(&addr("a"), addr("c")).unwrap();
    let admin = admin.claim(&addr("c")).unwrap();
    assert_eq!(admin, Admin::Settled { current: addr("c") });
}

#[test]
fn transfer_then_cancel_restores_admin() {
    let admin = Admin::Settled { current: addr("a") };
    let admin = admin.transfer(&addr("a"), addr("b")).unwrap();
    assert_eq!(admin.admin(), &addr("a"));
    let admin = admin.cancel_transfer(&addr("a")).unwrap();
    assert_eq!(admin, Admin::Settled { current: addr("a") });
}

#[test]
fn cancel_when_settled_keeps_admin() {
    let admin = Admin::Settled { current: addr("a") };
    assert_eq!(
        admin.clone().cancel_transfer(&addr("a")).unwrap(),
        Admin::Settled { current: addr("a") }
    );
    assert_eq!(
        admin.cancel_transfer(&addr("b")).unwrap_err(),
        ContractError::Unauthorized {}
    );
}

#[test]
fn candidate_powerless_before_claim_previous_admin_after() {
    let admin = Admin::Settled { current: addr("a") };
    let pending = admin.transfer(&addr("a"), addr("b")).unwrap();
    assert_eq!(
        pending.clone().transfer(&addr("b"), addr("c")).unwrap_err(),
        ContractError::Unauthorized {}
    );
    assert_eq!(
        pending.clone().cancel_transfer(&addr("b")).unwrap_err(),
        ContractError::Unauthorized {}
    );
    let settled = pending.claim(&addr("b")).unwrap();
    assert_eq!(
        settled.clone().transfer(&addr("a"), addr("a")).unwrap_err(),
        ContractError::Unauthorized {}
    );
    assert_eq!(
        settled.clone().cancel_transfer(&addr("a")).unwrap_err(),
        ContractError::Unauthorized {}
    );
    assert_eq!(settled.claim(&addr("a")).unwrap_err(), ContractError::Unauthorized {});
}
