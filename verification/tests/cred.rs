use gssctx::cred::{Acquire, AcquireCall, AcquireStage, Acquired};
use gssctx::oid::{Mech, OidSet};
use gssctx::status::GSS_C_INDEFINITE;
use gssctx::{Cred, CredUsage, Error, Name};

#[test]
fn usage_codes() {
    assert_eq!(CredUsage::Both.code(), 0);
    assert_eq!(CredUsage::Initiate.code(), 1);
    assert_eq!(CredUsage::Accept.code(), 2);
}

#[test]
fn acquire_without_name_and_lifetime_asks_for_indefinite() {
    let mut acquire = Cred::acquire(None, None, CredUsage::Accept);
    assert_eq!(
        acquire,
        Acquire { name: 0, time_req: 0xffff_ffff, usage: 2, stage: AcquireStage::Create }
    );
    assert_eq!(acquire.call(), Some(AcquireCall::CreateMechs));
    assert_eq!(acquire.feed(0, 0, 0x40), None);
    assert_eq!(acquire.call(), Some(AcquireCall::AddMech { mechs: 0x40, mech: Mech::Krb5 }));
    assert_eq!(acquire.feed(0, 0, 0x48), None);
    assert_eq!(
        acquire.call(),
        Some(AcquireCall::AcquireCred {
            name: 0,
            time_req: GSS_C_INDEFINITE,
            mechs: 0x48,
            usage: 2,
        })
    );
    assert_ne!(acquire.time_req, 0);
}

#[test]
fn acquire_for_a_name_with_a_lifetime() {
    let name = Name { handle: 0x1000 };
    let mut acquire = Cred::acquire(Some(&name), Some(3600), CredUsage::Initiate);
    assert_eq!(acquire.feed(0, 0, 0x40), None);
    assert_eq!(acquire.feed(0, 0, 0x40), None);
    assert_eq!(
        acquire.call(),
        Some(AcquireCall::AcquireCred { name: 0x1000, time_req: 3600, mechs: 0x40, usage: 1 })
    );
    assert_eq!(
        acquire.feed(0, 0, 0xc0),
        Some(Acquired {
            result: Ok(Cred { handle: 0xc0 }),
            release_mechs: Some(OidSet { handle: 0x40 }),
        })
    );
    assert_eq!(acquire.call(), None);
    assert_eq!(acquire.feed(0, 0, 0xc8), None);
    assert_eq!(acquire.stage, AcquireStage::Done);
}

#[test]
fn acquire_with_a_zero_lifetime_keeps_it() {
    let acquire = Cred::acquire(None, Some(0), CredUsage::Both);
    assert_eq!(acquire.time_req, 0);
    assert_eq!(acquire.usage, 0);
}

#[test]
fn acquire_stops_when_the_set_cannot_be_made() {
    let mut acquire = Cred::acquire(None, None, CredUsage::Both);
    assert_eq!(
        acquire.feed(13 << 16, 4, 0),
        Some(Acquired { result: Err(Error { major: 13 << 16, minor: 4 }), release_mechs: None })
    );
    assert_eq!(acquire.call(), None);
}

#[test]
fn acquire_releases_the_set_when_the_mechanism_cannot_be_added() {
    let mut acquire = Cred::acquire(None, None, CredUsage::Both);
    assert_eq!(acquire.feed(0, 0, 0x40), None);
    assert_eq!(
        acquire.feed(13 << 16, 4, 0x40),
        Some(Acquired {
            result: Err(Error { major: 13 << 16, minor: 4 }),
            release_mechs: Some(OidSet { handle: 0x40 }),
        })
    );
    assert_eq!(acquire.call(), None);
}

#[test]
fn acquire_releases_the_set_when_the_service_has_no_credential() {
    // GSS_S_NO_CRED is routine error 7.
    let mut acquire = Cred::acquire(None, None, CredUsage::Accept);
    assert_eq!(acquire.feed(0, 0, 0x40), None);
    assert_eq!(acquire.feed(0, 0, 0x48), None);
    assert_eq!(
        acquire.feed(7 << 16, 2529639107, 0),
        Some(Acquired {
            result: Err(Error { major: 7 << 16, minor: 2529639107 }),
            release_mechs: Some(OidSet { handle: 0x48 }),
        })
    );
}

#[test]
fn a_credential_is_known_by_its_handle() {
    let cred = Cred { handle: 0xc0 };
    assert_eq!(cred.handle(), 0xc0);
    assert_eq!(cred.clone(), cred);
}
