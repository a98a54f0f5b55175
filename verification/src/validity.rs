//! Whether this machine holds a valid license, decided step by step.
//!
//! The check reads the license file, compares the machine id it is bound to
//! with this machine's, and checks that it has not run out. A license that
//! passes is valid while the machine is offline or the server cannot be
//! reached; otherwise it is fetched anew from the server, stored, and checked
//! once more. The outside work (files, the machine id, the clock, the network)
//! is done by the caller: each step takes what the last action brought back
//! and says what to do next.

use vstd::prelude::*;
use crate::clock::{instant_after, Instant, LocalReading};
use crate::license::{expired_at, lemma_expiry_is_permanent, License};

verus! {

/// Which local check is under way: the one before, or the one after, the
/// license was fetched anew from the server.
#[derive(Clone, Copy, Debug, PartialEq, Eq, Structural)]
pub enum Pass {
    First,
    AfterRefresh,
}

/// Where the check stands.
#[derive(Debug)]
pub enum ValidityState {
    Start,
    AwaitLicenseFile(Pass),
    AwaitLicense(Pass),
    AwaitSystemId(Pass, License),
    AwaitExpiry(Pass),
    AwaitConnectivity,
    AwaitRefresh,
    Finished(Result<bool, String>),
}

/// What the caller brings back.
#[derive(Debug)]
pub enum ValidityEvent {
    /// The check is started.
    Begin,
    /// Whether the license file exists.
    LicenseFileChecked(bool),
    /// The license read from the file, or why it could not be read.
    LicenseLoaded(Result<License, String>),
    /// This machine's id.
    SystemIdComputed(String),
    /// Whether the license asked about has run out (`License::is_expired`).
    ExpiryChecked(bool),
    /// Whether the machine is online.
    ConnectivityChecked(bool),
    /// Whether the license was fetched anew and stored.
    Refreshed(bool),
}

/// What the caller is to do next.
#[derive(Debug)]
pub enum ValidityAction {
    CheckLicenseFile,
    LoadLicense,
    ComputeSystemId,
    CheckExpiry(License),
    CheckConnectivity,
    RefreshLicense,
    /// The check is over: whether the license is valid, or why it could not be told.
    Report(Result<bool, String>),
}

/// Whether `event` answers what `state` waits for.
pub open spec fn validity_accepts(state: ValidityState, event: ValidityEvent) -> bool {
    match (state, event) {
        (ValidityState::Start, ValidityEvent::Begin) => true,
        (ValidityState::AwaitLicenseFile(_), ValidityEvent::LicenseFileChecked(_)) => true,
        (ValidityState::AwaitLicense(_), ValidityEvent::LicenseLoaded(_)) => true,
        (ValidityState::AwaitSystemId(_, _), ValidityEvent::SystemIdComputed(_)) => true,
        (ValidityState::AwaitExpiry(_), ValidityEvent::ExpiryChecked(_)) => true,
        (ValidityState::AwaitConnectivity, ValidityEvent::ConnectivityChecked(_)) => true,
        (ValidityState::AwaitRefresh, ValidityEvent::Refreshed(_)) => true,
        _ => false,
    }
}

/// The check ends with `outcome`.
pub open spec fn finish(outcome: Result<bool, String>) -> (ValidityState, ValidityAction) {
    (ValidityState::Finished(outcome), ValidityAction::Report(outcome))
}

/// The step from `state` on `event`, where `event` answers what `state` waits for.
pub open spec fn validity_next(state: ValidityState, event: ValidityEvent) -> (ValidityState, ValidityAction) {
    match (state, event) {
        (ValidityState::Start, ValidityEvent::Begin) =>
            (ValidityState::AwaitLicenseFile(Pass::First), ValidityAction::CheckLicenseFile),
        (ValidityState::AwaitLicenseFile(pass), ValidityEvent::LicenseFileChecked(exists)) =>
            if exists {
                (ValidityState::AwaitLicense(pass), ValidityAction::LoadLicense)
            } else {
                finish(Ok(false))
            },
        (ValidityState::AwaitLicense(pass), ValidityEvent::LicenseLoaded(loaded)) =>
            match loaded {
                Ok(license) => (ValidityState::AwaitSystemId(pass, license), ValidityAction::ComputeSystemId),
                Err(e) => finish(Err(e)),
            },
        (ValidityState::AwaitSystemId(pass, license), ValidityEvent::SystemIdComputed(id)) =>
            if id@ == license.hwid_text() {
                (ValidityState::AwaitExpiry(pass), ValidityAction::CheckExpiry(license))
            } else {
                finish(Ok(false))
            },
        (ValidityState::AwaitExpiry(pass), ValidityEvent::ExpiryChecked(expired)) =>
            if expired {
                finish(Ok(false))
            } else if pass == Pass::First {
                (ValidityState::AwaitConnectivity, ValidityAction::CheckConnectivity)
            } else {
                finish(Ok(true))
            },
        (ValidityState::AwaitConnectivity, ValidityEvent::ConnectivityChecked(online)) =>
            if online {
                (ValidityState::AwaitRefresh, ValidityAction::RefreshLicense)
            } else {
                finish(Ok(true))
            },
        (ValidityState::AwaitRefresh, ValidityEvent::Refreshed(stored)) =>
            if stored {
                (ValidityState::AwaitLicenseFile(Pass::AfterRefresh), ValidityAction::CheckLicenseFile)
            } else {
                finish(Ok(true))
            },
        (s, _) => (s, ValidityAction::Report(Ok(false))),
    }
}

/// Whether `event` answers what `state` waits for.
pub fn validity_accepts_event(state: &ValidityState, event: &ValidityEvent) -> (r: bool)
    ensures
        r == validity_accepts(*state, *event),
{
    match (state, event) {
        (ValidityState::Start, ValidityEvent::Begin) => true,
        (ValidityState::AwaitLicenseFile(_), ValidityEvent::LicenseFileChecked(_)) => true,
        (ValidityState::AwaitLicense(_), ValidityEvent::LicenseLoaded(_)) => true,
        (ValidityState::AwaitSystemId(_, _), ValidityEvent::SystemIdComputed(_)) => true,
        (ValidityState::AwaitExpiry(_), ValidityEvent::ExpiryChecked(_)) => true,
        (ValidityState::AwaitConnectivity, ValidityEvent::ConnectivityChecked(_)) => true,
        (ValidityState::AwaitRefresh, ValidityEvent::Refreshed(_)) => true,
        _ => false,
    }
}

/// The check's first state.
pub fn validity_start() -> (r: ValidityState)
    ensures
        r == ValidityState::Start,
{
    ValidityState::Start
}

fn report(outcome: Result<bool, String>) -> (r: (ValidityState, ValidityAction))
    ensures
        r == finish(outcome),
{
    let copy = match &outcome {
        Ok(b) => Ok(*b),
        Err(e) => Err(e.clone()),
    };
    (ValidityState::Finished(copy), ValidityAction::Report(outcome))
}

/// One step of the check: from `state`, on what the last action brought back.
pub fn validity_step(state: ValidityState, event: ValidityEvent) -> (r: (ValidityState, ValidityAction))
    requires
        validity_accepts(state, event),
    ensures
        r == validity_next(state, event),
{
    match (state, event) {
        (ValidityState::Start, ValidityEvent::Begin) =>
            (ValidityState::AwaitLicenseFile(Pass::First), ValidityAction::CheckLicenseFile),
        (ValidityState::AwaitLicenseFile(pass), ValidityEvent::LicenseFileChecked(exists)) =>
            if exists {
                (ValidityState::AwaitLicense(pass), ValidityAction::LoadLicense)
            } else {
                report(Ok(false))
            },
        (ValidityState::AwaitLicense(pass), ValidityEvent::LicenseLoaded(loaded)) =>
            match loaded {
                Ok(license) => (ValidityState::AwaitSystemId(pass, license), ValidityAction::ComputeSystemId),
                Err(e) => report(Err(e)),
            },
        (ValidityState::AwaitSystemId(pass, license), ValidityEvent::SystemIdComputed(id)) => {
            let bound = match &license.hwid {
                Some(h) => id.eq(h),
                None => id.as_str().is_empty(),
            };
            proof {
                if id@.len() == 0 {
                    assert(id@ =~= Seq::<char>::empty());
                }
            }
            if bound {
                (ValidityState::AwaitExpiry(pass), ValidityAction::CheckExpiry(license))
            } else {
                report(Ok(false))
            }
        },
        (ValidityState::AwaitExpiry(pass), ValidityEvent::ExpiryChecked(expired)) =>
            if expired {
                report(Ok(false))
            } else if pass == Pass::First {
                (ValidityState::AwaitConnectivity, ValidityAction::CheckConnectivity)
            } else {
                report(Ok(true))
            },
        (ValidityState::AwaitConnectivity, ValidityEvent::ConnectivityChecked(online)) =>
            if online {
                (ValidityState::AwaitRefresh, ValidityAction::RefreshLicense)
            } else {
                report(Ok(true))
            },
        (ValidityState::AwaitRefresh, ValidityEvent::Refreshed(stored)) =>
            if stored {
                (ValidityState::AwaitLicenseFile(Pass::AfterRefresh), ValidityAction::CheckLicenseFile)
            } else {
                report(Ok(true))
            },
        (s, _) => (s, ValidityAction::Report(Ok(false))),
    }
}

/// How many steps at most the check has left from `state`.
pub open spec fn steps_left(state: ValidityState) -> nat {
    match state {
        ValidityState::Start => 11,
        ValidityState::AwaitLicenseFile(Pass::First) => 10,
        ValidityState::AwaitLicense(Pass::First) => 9,
        ValidityState::AwaitSystemId(Pass::First, _) => 8,
        ValidityState::AwaitExpiry(Pass::First) => 7,
        ValidityState::AwaitConnectivity => 6,
        ValidityState::AwaitRefresh => 5,
        ValidityState::AwaitLicenseFile(Pass::AfterRefresh) => 4,
        ValidityState::AwaitLicense(Pass::AfterRefresh) => 3,
        ValidityState::AwaitSystemId(Pass::AfterRefresh, _) => 2,
        ValidityState::AwaitExpiry(Pass::AfterRefresh) => 1,
        ValidityState::Finished(_) => 0,
    }
}

/// The check always ends: every step it takes brings it nearer its end, so
/// that it reports after at most eleven steps, and a finished check waits for
/// nothing more.
pub proof fn lemma_check_ends(state: ValidityState, event: ValidityEvent)
    ensures
        validity_accepts(state, event) ==> steps_left(validity_next(state, event).0) < steps_left(state),
        state is Finished ==> !validity_accepts(state, event),
        steps_left(state) <= 11,
{
}

/// The check reports exactly when it finishes, and it finishes with what it reports.
pub proof fn lemma_report_is_final(state: ValidityState, event: ValidityEvent)
    requires
        validity_accepts(state, event),
    ensures
        validity_next(state, event).0 is Finished <==> validity_next(state, event).1 is Report,
        validity_next(state, event).1 matches ValidityAction::Report(outcome)
            ==> validity_next(state, event).0 == ValidityState::Finished(outcome),
{
}

/// The network is consulted only for a license that passed the local check:
/// the machine's connectivity is asked for only once the license on disk was
/// found bound to this machine and not run out, and the license is fetched
/// anew only when the machine is online.
pub proof fn lemma_network_after_local_pass(state: ValidityState, event: ValidityEvent)
    requires
        validity_accepts(state, event),
    ensures
        validity_next(state, event).1 is CheckConnectivity
            ==> state == ValidityState::AwaitExpiry(Pass::First) && event == ValidityEvent::ExpiryChecked(false),
        validity_next(state, event).1 is RefreshLicense
            ==> state == ValidityState::AwaitConnectivity && event == ValidityEvent::ConnectivityChecked(true),
{
}

/// A license that passed the local check stays valid while the machine is
/// offline, and while the server cannot be reached.
pub proof fn lemma_valid_when_server_out_of_reach()
    ensures
        validity_next(ValidityState::AwaitConnectivity, ValidityEvent::ConnectivityChecked(false)) == finish(Ok(true)),
        validity_next(ValidityState::AwaitRefresh, ValidityEvent::Refreshed(false)) == finish(Ok(true)),
{
}

/// A missing license file, a license bound to another machine and a license
/// that has run out are each reported invalid, before and after the refresh
/// alike; a license file that cannot be read is reported as an error.
pub proof fn lemma_local_failures(pass: Pass, license: License, id: String, reason: String)
    ensures
        validity_next(ValidityState::AwaitLicenseFile(pass), ValidityEvent::LicenseFileChecked(false)) == finish(Ok(false)),
        id@ != license.hwid_text() ==> validity_next(ValidityState::AwaitSystemId(pass, license),
            ValidityEvent::SystemIdComputed(id)) == finish(Ok(false)),
        validity_next(ValidityState::AwaitExpiry(pass), ValidityEvent::ExpiryChecked(true)) == finish(Ok(false)),
        validity_next(ValidityState::AwaitLicense(pass), ValidityEvent::LicenseLoaded(Err(reason))) == finish(Err(reason)),
{
}

/// After the refresh, the outcome is the local check of the license fetched
/// anew: valid exactly when it is bound to this machine and has not run out.
pub proof fn lemma_refreshed_license_decides(license: License, id: String, expired: bool)
    ensures
        validity_next(ValidityState::AwaitRefresh, ValidityEvent::Refreshed(true))
            == (ValidityState::AwaitLicenseFile(Pass::AfterRefresh), ValidityAction::CheckLicenseFile),
        id@ == license.hwid_text() ==> validity_next(ValidityState::AwaitSystemId(Pass::AfterRefresh, license),
            ValidityEvent::SystemIdComputed(id)) == (ValidityState::AwaitExpiry(Pass::AfterRefresh), ValidityAction::CheckExpiry(license)),
        validity_next(ValidityState::AwaitExpiry(Pass::AfterRefresh), ValidityEvent::ExpiryChecked(expired)) == finish(Ok(!expired)),
{
}

/// The expiry is asked of the license that was loaded: once this machine's id
/// matches the one the loaded license is bound to, the check asks whether that
/// very license has run out (its expiry date unchanged), in either pass, and
/// an answer that it has ends the check with the verdict invalid.
pub proof fn lemma_expiry_asked_of_loaded_license(pass: Pass, license: License, id: String)
    requires
        id@ == license.hwid_text(),
    ensures
        validity_next(ValidityState::AwaitSystemId(pass, license), ValidityEvent::SystemIdComputed(id))
            == (ValidityState::AwaitExpiry(pass), ValidityAction::CheckExpiry(license)),
        validity_next(ValidityState::AwaitSystemId(pass, license), ValidityEvent::SystemIdComputed(id)).1
            matches ValidityAction::CheckExpiry(asked) && asked.expire == license.expire && asked.value == license.value,
        validity_next(ValidityState::AwaitExpiry(pass), ValidityEvent::ExpiryChecked(true)).1
            == ValidityAction::Report(Ok::<bool, String>(false)),
{
}

/// What one local check of the license finds: whether the file exists, what
/// reading it gave, this machine's id, and whether the license has run out.
pub struct LocalCheck {
    pub file_exists: bool,
    pub loaded: Result<License, String>,
    pub system_id: String,
    pub expired: bool,
}

/// The verdict of one local check: a missing file, a license bound to another
/// machine, or one that has run out is invalid; a file that cannot be read is
/// an error; otherwise the license passes.
pub open spec fn local_outcome(c: LocalCheck) -> Result<bool, String> {
    if !c.file_exists {
        Ok(false)
    } else {
        match c.loaded {
            Err(e) => Err(e),
            Ok(license) => if c.system_id@ != license.hwid_text() || c.expired { Ok(false) } else { Ok(true) },
        }
    }
}

/// The answers a local check gives, in the order the check asks for them.
pub open spec fn local_events(c: LocalCheck) -> Seq<ValidityEvent> {
    seq![
        ValidityEvent::LicenseFileChecked(c.file_exists),
        ValidityEvent::LicenseLoaded(c.loaded),
        ValidityEvent::SystemIdComputed(c.system_id),
        ValidityEvent::ExpiryChecked(c.expired),
    ]
}

/// What the whole check reports: the verdict of the first local check,
/// unless that passed, the machine is online and the license was fetched
/// anew, in which case the verdict of the second local check; a license that
/// passed the first stays valid while the machine is offline or the license
/// could not be fetched.
pub open spec fn check_outcome(first: LocalCheck, online: bool, refreshed: bool, second: LocalCheck) -> Result<bool, String> {
    if local_outcome(first) == Ok::<bool, String>(true) {
        if online && refreshed { local_outcome(second) } else { Ok(true) }
    } else {
        local_outcome(first)
    }
}

/// The answers of a whole check, in order; those the check does not ask for
/// are passed over.
pub open spec fn check_events(first: LocalCheck, online: bool, refreshed: bool, second: LocalCheck) -> Seq<ValidityEvent> {
    seq![ValidityEvent::Begin] + local_events(first) + seq![
        ValidityEvent::ConnectivityChecked(online),
        ValidityEvent::Refreshed(refreshed),
    ] + local_events(second)
}

/// The state after `event`: the step where it answers what `state` waits for,
/// else `state` unchanged.
pub open spec fn step_or_stay(state: ValidityState, event: ValidityEvent) -> ValidityState {
    if validity_accepts(state, event) { validity_next(state, event).0 } else { state }
}

/// The state after `events`, one by one.
pub open spec fn validity_after(state: ValidityState, events: Seq<ValidityEvent>) -> ValidityState
    decreases events.len(),
{
    if events.len() == 0 {
        state
    } else {
        validity_after(step_or_stay(state, events[0]), events.drop_first())
    }
}

proof fn lemma_after_cons(state: ValidityState, event: ValidityEvent, rest: Seq<ValidityEvent>)
    ensures
        validity_after(state, seq![event] + rest) == validity_after(step_or_stay(state, event), rest),
{
    let es = seq![event] + rest;
    assert(es[0] == event);
    assert(es.drop_first() =~= rest);
}

proof fn lemma_after_finished(outcome: Result<bool, String>, events: Seq<ValidityEvent>)
    ensures
        validity_after(ValidityState::Finished(outcome), events) == ValidityState::Finished(outcome),
    decreases events.len(),
{
    if events.len() > 0 {
        lemma_after_finished(outcome, events.drop_first());
    }
}

proof fn lemma_local_phase(pass: Pass, c: LocalCheck, rest: Seq<ValidityEvent>)
    ensures
        validity_after(ValidityState::AwaitLicenseFile(pass), local_events(c) + rest) == (
        if local_outcome(c) == Ok::<bool, String>(true) {
            validity_after(ValidityState::AwaitExpiry(pass), seq![ValidityEvent::ExpiryChecked(false)] + rest)
        } else {
            ValidityState::Finished(local_outcome(c))
        }),
{
    let e1 = ValidityEvent::LicenseFileChecked(c.file_exists);
    let e2 = ValidityEvent::LicenseLoaded(c.loaded);
    let e3 = ValidityEvent::SystemIdComputed(c.system_id);
    let e4 = ValidityEvent::ExpiryChecked(c.expired);
    let r4 = seq![e4] + rest;
    let r3 = seq![e3] + r4;
    let r2 = seq![e2] + r3;
    assert(local_events(c) + rest =~= seq![e1] + r2);
    lemma_after_cons(ValidityState::AwaitLicenseFile(pass), e1, r2);
    if !c.file_exists {
        lemma_after_finished(Ok(false), r2);
    } else {
        lemma_after_cons(ValidityState::AwaitLicense(pass), e2, r3);
        match c.loaded {
            Err(e) => {
                lemma_after_finished(Err(e), r3);
            },
            Ok(license) => {
                lemma_after_cons(ValidityState::AwaitSystemId(pass, license), e3, r4);
                if c.system_id@ != license.hwid_text() {
                    lemma_after_finished(Ok(false), r4);
                } else {
                    lemma_after_cons(ValidityState::AwaitExpiry(pass), e4, rest);
                    if c.expired {
                        lemma_after_finished(Ok(false), rest);
                    }
                }
            },
        }
    }
}

/// What the whole check reports, given what each action brought back: fed
/// the answers of a check in order, the check finishes with `check_outcome`.
pub proof fn lemma_check_outcome(first: LocalCheck, online: bool, refreshed: bool, second: LocalCheck)
    ensures
        validity_after(ValidityState::Start, check_events(first, online, refreshed, second))
            == ValidityState::Finished(check_outcome(first, online, refreshed, second)),
{
    let ec = ValidityEvent::ConnectivityChecked(online);
    let er = ValidityEvent::Refreshed(refreshed);
    let tail = seq![er] + local_events(second);
    let middle = seq![ec] + tail;
    assert(check_events(first, online, refreshed, second) =~= seq![ValidityEvent::Begin] + (local_events(first) + middle));
    lemma_after_cons(ValidityState::Start, ValidityEvent::Begin, local_events(first) + middle);
    lemma_local_phase(Pass::First, first, middle);
    if local_outcome(first) == Ok::<bool, String>(true) {
        lemma_after_cons(ValidityState::AwaitExpiry(Pass::First), ValidityEvent::ExpiryChecked(false), middle);
        lemma_after_cons(ValidityState::AwaitConnectivity, ec, tail);
        if !online {
            lemma_after_finished(Ok(true), tail);
        } else {
            lemma_after_cons(ValidityState::AwaitRefresh, er, local_events(second));
            if !refreshed {
                lemma_after_finished(Ok(true), local_events(second));
            } else {
                assert(local_events(second) =~= local_events(second) + Seq::<ValidityEvent>::empty());
                lemma_local_phase(Pass::AfterRefresh, second, Seq::empty());
                if local_outcome(second) == Ok::<bool, String>(true) {
                    lemma_after_cons(ValidityState::AwaitExpiry(Pass::AfterRefresh), ValidityEvent::ExpiryChecked(false), Seq::empty());
                    assert(validity_after(ValidityState::Finished(Ok(true)), Seq::<ValidityEvent>::empty()) == ValidityState::Finished(Ok(true)));
                }
            }
        }
    }
}

/// The local check that the license file, as a whole check leaves it, meets:
/// the second one where the license was fetched anew and stored, else the first.
pub open spec fn last_local_check(first: LocalCheck, online: bool, refreshed: bool, second: LocalCheck) -> LocalCheck {
    if local_outcome(first) == Ok::<bool, String>(true) && online && refreshed { second } else { first }
}

/// A later local check that finds the same license file and the same machine
/// id as `earlier`, with the same expiry date read in the same zone at a
/// later or equal time.
pub open spec fn same_file_later(
    earlier: LocalCheck,
    later: LocalCheck,
    reading: LocalReading,
    then: Instant,
    now: Instant,
) -> bool {
    &&& later.file_exists == earlier.file_exists
    &&& later.loaded == earlier.loaded
    &&& later.system_id@ == earlier.system_id@
    &&& earlier.expired == expired_at(reading, then)
    &&& later.expired == expired_at(reading, now)
    &&& !instant_after(then, now)
}

/// An invalid verdict stays: once a check has reported the license invalid,
/// every later check reports it invalid again, and finishes within its local
/// check without asking for the network, as long as nothing but the checks
/// changes the license file or the machine id and the clock does not go back.
pub proof fn lemma_invalid_stays_invalid(
    first: LocalCheck,
    online: bool,
    refreshed: bool,
    second: LocalCheck,
    later: LocalCheck,
    reading: LocalReading,
    then: Instant,
    now: Instant,
    later_online: bool,
    later_refreshed: bool,
    later_second: LocalCheck,
)
    requires
        check_outcome(first, online, refreshed, second) == Ok::<bool, String>(false),
        same_file_later(last_local_check(first, online, refreshed, second), later, reading, then, now),
    ensures
        check_outcome(later, later_online, later_refreshed, later_second) == Ok::<bool, String>(false),
        validity_after(ValidityState::Start, seq![ValidityEvent::Begin] + local_events(later))
            == ValidityState::Finished(Ok::<bool, String>(false)),
{
    let earlier = last_local_check(first, online, refreshed, second);
    assert(local_outcome(earlier) == Ok::<bool, String>(false));
    if earlier.expired {
        lemma_expiry_is_permanent(reading, then, now);
    }
    assert(local_outcome(later) == Ok::<bool, String>(false));
    lemma_after_cons(ValidityState::Start, ValidityEvent::Begin, local_events(later));
    assert(local_events(later) =~= local_events(later) + Seq::<ValidityEvent>::empty());
    lemma_local_phase(Pass::First, later, Seq::empty());
}

} // verus!
