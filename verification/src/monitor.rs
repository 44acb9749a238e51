use vstd::prelude::*;
use vstd::pervasive::unreached;

use std::sync::mpsc::Receiver;
use std::sync::mpsc::SendError;
use std::sync::mpsc::Sender;

use crate::events::Event;
use crate::events::NotificationKind;
use crate::events::NotificationListener;
use crate::events::all_kinds;
use crate::events::spec_kind_at;
use crate::events::spec_kind_index;
use crate::events::KIND_COUNT;
use crate::parse::Notification;
use crate::parse::RunningApplication;
use crate::parse::app_identifier_from_notification;
use crate::parse::running_application_identifier;
use crate::parse::spec_app_identifier;
use crate::parse::spec_running_application_identifier;

verus! {

/// `std::sync::mpsc::Sender`, the producing half of a channel, declared so
/// that it can stand in fields and signatures.
#[verifier::external_type_specification]
#[verifier::external_body]
#[verifier::reject_recursive_types(T)]
pub struct ExSender<T>(Sender<T>);

/// `std::sync::mpsc::Receiver`, the consuming half of a channel, declared so
/// that it can stand in signatures.
#[verifier::external_type_specification]
#[verifier::external_body]
#[verifier::reject_recursive_types(T)]
pub struct ExReceiver<T>(Receiver<T>);

/// `std::sync::mpsc::SendError`, the failure a send reports when the
/// receiving half is gone, declared so that it can stand in signatures.
#[verifier::external_type_specification]
#[verifier::external_body]
#[verifier::reject_recursive_types(T)]
pub struct ExSendError<T>(SendError<T>);

/// Relies on `std::sync::mpsc::channel`: returns the sending and receiving
/// halves of a fresh unbounded FIFO channel.
#[verifier::external_body]
fn event_channel() -> (Sender<Event>, Receiver<Event>) {
    std::sync::mpsc::channel()
}

/// Relies on `std::sync::mpsc::Sender::send`: queues the value for the
/// receiving half, and fails exactly when that half has been dropped.
#[verifier::external_body]
fn channel_send(events: &Sender<Event>, event: Event) -> Result<(), SendError<Event>> {
    events.send(event)
}

/// The selector under which the delegate receives a notification kind.
pub open spec fn spec_selector(k: NotificationKind) -> Seq<char> {
    match k {
        NotificationKind::DidActivateApplication => "didActivateApplication:"@,
        NotificationKind::DidDeactivateApplication => "didDeactivateApplication:"@,
        NotificationKind::DidLaunchApplication => "didLaunchApplication:"@,
        NotificationKind::DidTerminateApplication => "didTerminateApplication:"@,
        NotificationKind::DidHideApplication => "didHideApplication:"@,
        NotificationKind::DidUnhideApplication => "didUnhideApplication:"@,
        NotificationKind::DidSleep => "didSleep:"@,
        NotificationKind::DidWake => "didWake:"@,
        NotificationKind::DidPowerOff => "didPowerOff:"@,
        NotificationKind::DidScreenSleep => "didScreenSleep:"@,
        NotificationKind::DidScreenWake => "didScreenWake:"@,
    }
}

/// The OS-wide name of the workspace notification behind a kind.
pub open spec fn spec_notification_name(k: NotificationKind) -> Seq<char> {
    match k {
        NotificationKind::DidActivateApplication => "NSWorkspaceDidActivateApplicationNotification"@,
        NotificationKind::DidDeactivateApplication
            => "NSWorkspaceDidDeactivateApplicationNotification"@,
        NotificationKind::DidLaunchApplication => "NSWorkspaceDidLaunchApplicationNotification"@,
        NotificationKind::DidTerminateApplication
            => "NSWorkspaceDidTerminateApplicationNotification"@,
        NotificationKind::DidHideApplication => "NSWorkspaceDidHideApplicationNotification"@,
        NotificationKind::DidUnhideApplication => "NSWorkspaceDidUnhideApplicationNotification"@,
        NotificationKind::DidSleep => "NSWorkspaceWillSleepNotification"@,
        NotificationKind::DidWake => "NSWorkspaceDidWakeNotification"@,
        NotificationKind::DidPowerOff => "NSWorkspaceWillPowerOffNotification"@,
        NotificationKind::DidScreenSleep => "NSWorkspaceScreensDidSleepNotification"@,
        NotificationKind::DidScreenWake => "NSWorkspaceScreensDidWakeNotification"@,
    }
}

/// Whether a kind carries an application in its payload (as opposed to the
/// global power and screen kinds, which carry none).
pub open spec fn spec_is_app_scoped(k: NotificationKind) -> bool {
    match k {
        NotificationKind::DidActivateApplication => true,
        NotificationKind::DidDeactivateApplication => true,
        NotificationKind::DidLaunchApplication => true,
        NotificationKind::DidTerminateApplication => true,
        NotificationKind::DidHideApplication => true,
        NotificationKind::DidUnhideApplication => true,
        _ => false,
    }
}

/// Whether a kind carries an application in its payload.
pub fn is_app_scoped(k: NotificationKind) -> (r: bool)
    ensures
        r == spec_is_app_scoped(k),
{
    match k {
        NotificationKind::DidActivateApplication => true,
        NotificationKind::DidDeactivateApplication => true,
        NotificationKind::DidLaunchApplication => true,
        NotificationKind::DidTerminateApplication => true,
        NotificationKind::DidHideApplication => true,
        NotificationKind::DidUnhideApplication => true,
        _ => false,
    }
}

/// The event the delegate emits for a notification of kind `kind` with
/// payload `n`: for application-scoped kinds the matching variant when
/// identifier resolution succeeds and `Error` when it fails, and for the
/// global kinds the fixed variant with no parsing step.
pub open spec fn spec_event_for(kind: NotificationKind, n: Notification) -> Event {
    match kind {
        NotificationKind::DidActivateApplication => match spec_app_identifier(n) {
            Ok(id) => Event::DidActivateApplication(id),
            Err(e) => Event::Error(e),
        },
        NotificationKind::DidDeactivateApplication => match spec_app_identifier(n) {
            Ok(id) => Event::DidDeactivateApplication(id),
            Err(e) => Event::Error(e),
        },
        NotificationKind::DidLaunchApplication => match spec_app_identifier(n) {
            Ok(id) => Event::DidLaunchApplication(id),
            Err(e) => Event::Error(e),
        },
        NotificationKind::DidTerminateApplication => match spec_app_identifier(n) {
            Ok(id) => Event::DidTerminateApplication(id),
            Err(e) => Event::Error(e),
        },
        NotificationKind::DidHideApplication => match spec_app_identifier(n) {
            Ok(id) => Event::DidHideApplication(id),
            Err(e) => Event::Error(e),
        },
        NotificationKind::DidUnhideApplication => match spec_app_identifier(n) {
            Ok(id) => Event::DidUnhideApplication(id),
            Err(e) => Event::Error(e),
        },
        NotificationKind::DidSleep => Event::DidSleep,
        NotificationKind::DidWake => Event::DidWake,
        NotificationKind::DidPowerOff => Event::DidPowerOff,
        NotificationKind::DidScreenSleep => Event::DidScreenSleep,
        NotificationKind::DidScreenWake => Event::DidScreenWake,
    }
}

/// One entry of the registration table a subscription resolves to: a kind,
/// the delegate selector it is dispatched to, and the OS notification name
/// observed for it.
#[derive(Clone, Copy, Debug)]
pub struct Registration {
    /// The subscribed kind.
    pub kind: NotificationKind,
    /// The delegate callback selector registered for the kind.
    pub selector: &'static str,
    /// The OS-wide workspace notification name registered for the kind.
    pub name: &'static str,
}

/// The delegate half the OS calls into: it owns the sending half of the
/// event channel and turns raw notifications into typed events. The ghost
/// `sent` field records, in order, every event handed to the channel.
pub struct AppDelegate {
    events: Sender<Event>,
    sent: Ghost<Seq<Event>>,
}

impl AppDelegate {
    /// The events this delegate has pushed onto the channel, in FIFO order.
    pub closed spec fn spec_sent(self) -> Seq<Event> {
        self.sent@
    }

    /// Wraps the sending half of a fresh event channel.
    pub fn new(events: Sender<Event>) -> (r: AppDelegate)
        ensures
            r.spec_sent() == Seq::<Event>::empty(),
    {
        AppDelegate { events, sent: Ghost(Seq::empty()) }
    }

    /// The (selector, OS notification name) pair registered for a kind.
    pub fn notification_handler(kind: NotificationKind) -> (r: (&'static str, &'static str))
        ensures
            r.0@ == spec_selector(kind),
            r.1@ == spec_notification_name(kind),
    {
        match kind {
            NotificationKind::DidActivateApplication => (
                "didActivateApplication:",
                "NSWorkspaceDidActivateApplicationNotification",
            ),
            NotificationKind::DidDeactivateApplication => (
                "didDeactivateApplication:",
                "NSWorkspaceDidDeactivateApplicationNotification",
            ),
            NotificationKind::DidLaunchApplication => (
                "didLaunchApplication:",
                "NSWorkspaceDidLaunchApplicationNotification",
            ),
            NotificationKind::DidTerminateApplication => (
                "didTerminateApplication:",
                "NSWorkspaceDidTerminateApplicationNotification",
            ),
            NotificationKind::DidHideApplication => (
                "didHideApplication:",
                "NSWorkspaceDidHideApplicationNotification",
            ),
            NotificationKind::DidUnhideApplication => (
                "didUnhideApplication:",
                "NSWorkspaceDidUnhideApplicationNotification",
            ),
            NotificationKind::DidSleep => ("didSleep:", "NSWorkspaceWillSleepNotification"),
            NotificationKind::DidWake => ("didWake:", "NSWorkspaceDidWakeNotification"),
            NotificationKind::DidPowerOff => ("didPowerOff:", "NSWorkspaceWillPowerOffNotification"),
            NotificationKind::DidScreenSleep => (
                "didScreenSleep:",
                "NSWorkspaceScreensDidSleepNotification",
            ),
            NotificationKind::DidScreenWake => (
                "didScreenWake:",
                "NSWorkspaceScreensDidWakeNotification",
            ),
        }
    }

    /// Pushes one event onto the channel. Returns whether the channel took
    /// it; it refuses only when the receiving half is gone, which the
    /// original design treats as an unrecoverable caller error.
    pub fn send_event(&mut self, event: Event) -> (r: bool)
        ensures
            r ==> final(self).spec_sent() == old(self).spec_sent().push(event),
            !r ==> final(self).spec_sent() == old(self).spec_sent(),
    {
        let ghost pushed = event;
        match channel_send(&self.events, event) {
            Ok(_) => {
                proof {
                    self.sent@ = self.sent@.push(pushed);
                }
                true
            },
            Err(_) => false,
        }
    }

    /// Resolves the application identifier of an application-scoped
    /// notification and pushes the matching event, or `Error` when the
    /// resolution fails.
    pub fn send_app_event(&mut self, kind: NotificationKind, notification: &Notification) -> (r:
        bool)
        requires
            spec_is_app_scoped(kind),
        ensures
            r ==> final(self).spec_sent() == old(self).spec_sent().push(
                spec_event_for(kind, *notification),
            ),
            !r ==> final(self).spec_sent() == old(self).spec_sent(),
    {
        let event = match app_identifier_from_notification(notification) {
            Ok(identifier) => match kind {
                NotificationKind::DidActivateApplication => Event::DidActivateApplication(
                    identifier,
                ),
                NotificationKind::DidDeactivateApplication => Event::DidDeactivateApplication(
                    identifier,
                ),
                NotificationKind::DidLaunchApplication => Event::DidLaunchApplication(identifier),
                NotificationKind::DidTerminateApplication => Event::DidTerminateApplication(
                    identifier,
                ),
                NotificationKind::DidHideApplication => Event::DidHideApplication(identifier),
                NotificationKind::DidUnhideApplication => Event::DidUnhideApplication(identifier),
                _ => unreached(),
            },
            Err(e) => Event::Error(e),
        };
        self.send_event(event)
    }

    /// Turns one raw notification callback into its typed event and pushes
    /// it: application-scoped kinds go through identifier resolution, global
    /// kinds map to their fixed event.
    pub fn handle(&mut self, kind: NotificationKind, notification: &Notification) -> (r: bool)
        ensures
            r ==> final(self).spec_sent() == old(self).spec_sent().push(
                spec_event_for(kind, *notification),
            ),
            !r ==> final(self).spec_sent() == old(self).spec_sent(),
    {
        if is_app_scoped(kind) {
            self.send_app_event(kind, notification)
        } else {
            let event = match kind {
                NotificationKind::DidSleep => Event::DidSleep,
                NotificationKind::DidWake => Event::DidWake,
                NotificationKind::DidPowerOff => Event::DidPowerOff,
                NotificationKind::DidScreenSleep => Event::DidScreenSleep,
                NotificationKind::DidScreenWake => Event::DidScreenWake,
                _ => unreached(),
            };
            self.send_event(event)
        }
    }
}

/// The kinds a mask subscribes among the first `n` of the enumeration
/// order, in that order.
pub open spec fn spec_kinds_upto(m: NotificationListener, n: int) -> Seq<NotificationKind>
    decreases n,
{
    if n <= 0 {
        Seq::empty()
    } else if m.spec_listens(spec_kind_at(n - 1)) {
        spec_kinds_upto(m, n - 1).push(spec_kind_at(n - 1))
    } else {
        spec_kinds_upto(m, n - 1)
    }
}

/// The kinds a mask subscribes, in enumeration order.
pub open spec fn spec_subscribed_kinds(m: NotificationListener) -> Seq<NotificationKind> {
    spec_kinds_upto(m, KIND_COUNT as int)
}

/// The public façade: owns the delegate and resolves subscriptions to the
/// registration table the OS glue installs.
pub struct Monitor {
    delegate: AppDelegate,
}

impl Monitor {
    /// The events this monitor's delegate has pushed onto the channel.
    pub closed spec fn spec_sent(self) -> Seq<Event> {
        self.delegate.spec_sent()
    }

    /// Creates a monitor and the receiving half of its event channel.
    ///
    /// The delegate may only exist on the OS's main execution context;
    /// `on_main_thread` says whether the caller is on it, and construction
    /// returns nothing when it is not.
    pub fn new(on_main_thread: bool) -> (r: Option<(Monitor, Receiver<Event>)>)
        ensures
            r.is_some() <==> on_main_thread,
            r.is_some() ==> r.unwrap().0.spec_sent() == Seq::<Event>::empty(),
    {
        if !on_main_thread {
            return None;
        }
        let (events, events_rx) = event_channel();
        let delegate = AppDelegate::new(events);
        Some((Monitor { delegate }, events_rx))
    }

    /// Resolves a subscription mask to its registration table: one entry
    /// per subscribed kind, in enumeration order, each carrying the
    /// delegate selector and OS notification name to observe.
    pub fn subscribe(&self, listeners: NotificationListener) -> (r: Vec<Registration>)
        ensures
            r@.len() == spec_subscribed_kinds(listeners).len(),
            forall|j: int|
                0 <= j < r@.len() ==> (#[trigger] r@[j]).kind == spec_subscribed_kinds(listeners)[j]
                    && r@[j].selector@ == spec_selector(r@[j].kind)
                    && r@[j].name@ == spec_notification_name(r@[j].kind),
    {
        let kinds = all_kinds();
        let mut r: Vec<Registration> = Vec::new();
        let mut i: usize = 0;
        while i < kinds.len()
            invariant
                kinds@.len() == KIND_COUNT,
                forall|t: int| 0 <= t < KIND_COUNT ==> #[trigger] kinds@[t] == spec_kind_at(t),
                0 <= i <= KIND_COUNT,
                r@.len() == spec_kinds_upto(listeners, i as int).len(),
                forall|j: int|
                    0 <= j < r@.len() ==> (#[trigger] r@[j]).kind == spec_kinds_upto(
                        listeners,
                        i as int,
                    )[j] && r@[j].selector@ == spec_selector(r@[j].kind)
                        && r@[j].name@ == spec_notification_name(r@[j].kind),
            decreases KIND_COUNT - i,
        {
            let kind = kinds[i];
            if listeners.contains(NotificationListener::from_kind(kind)) {
                let (selector, name) = AppDelegate::notification_handler(kind);
                r.push(Registration { kind, selector, name });
            }
            i = i + 1;
        }
        r
    }

    /// Turns one raw notification callback into its typed event and pushes
    /// it onto the channel; forwards to the delegate.
    pub fn handle(&mut self, kind: NotificationKind, notification: &Notification) -> (r: bool)
        ensures
            r ==> final(self).spec_sent() == old(self).spec_sent().push(
                spec_event_for(kind, *notification),
            ),
            !r ==> final(self).spec_sent() == old(self).spec_sent(),
    {
        self.delegate.handle(kind, notification)
    }

    /// Returns the bundle identifier of the OS's frontmost application, or
    /// nothing when no frontmost application is resolvable or it has no
    /// bundle identifier.
    pub fn get_active_application(&self, frontmost: Option<&RunningApplication>) -> (r: Option<
        String,
    >)
        ensures
            r == (match frontmost {
                Some(app) => spec_running_application_identifier(*app),
                None => None::<String>,
            }),
    {
        match frontmost {
            Some(app) => running_application_identifier(app),
            None => None,
        }
    }
}

/// The elements of `spec_kinds_upto(m, n)` are exactly the subscribed kinds
/// among the first `n`, each placed at its enumeration position order.
proof fn lemma_kinds_upto_props(m: NotificationListener, n: int)
    requires
        0 <= n <= KIND_COUNT,
    ensures
        forall|j: int|
            0 <= j < spec_kinds_upto(m, n).len() ==> m.spec_listens(
                #[trigger] spec_kinds_upto(m, n)[j],
            ) && 0 <= spec_kind_index(spec_kinds_upto(m, n)[j]) < n && spec_kind_at(
                spec_kind_index(spec_kinds_upto(m, n)[j]),
            ) == spec_kinds_upto(m, n)[j],
        forall|j1: int, j2: int|
            0 <= j1 < j2 < spec_kinds_upto(m, n).len() ==> spec_kind_index(
                #[trigger] spec_kinds_upto(m, n)[j1],
            ) < spec_kind_index(#[trigger] spec_kinds_upto(m, n)[j2]),
        forall|i: int|
            0 <= i < n && m.spec_listens(#[trigger] spec_kind_at(i)) ==> spec_kinds_upto(
                m,
                n,
            ).contains(spec_kind_at(i)),
    decreases n,
{
    crate::events::lemma_flags_partition();
    if n > 0 {
        lemma_kinds_upto_props(m, n - 1);
        let prev = spec_kinds_upto(m, n - 1);
        let cur = spec_kinds_upto(m, n);
        assert forall|i: int|
            0 <= i < n && m.spec_listens(#[trigger] spec_kind_at(i)) implies cur.contains(
            spec_kind_at(i),
        ) by {
            if i < n - 1 {
                let w = choose|w: int| 0 <= w < prev.len() && prev[w] == spec_kind_at(i);
                assert(cur[w] == spec_kind_at(i));
            } else {
                assert(cur[cur.len() - 1] == spec_kind_at(n - 1));
            }
        }
    }
}

/// The law behind `subscribe`: for every mask `m`, the resolved table
/// carries a kind if and only if the kind's bit is set in `m`, and carries
/// no kind twice — so exactly the notification names of the set bits are
/// registered, and no others.
pub proof fn lemma_subscribe_exact(m: NotificationListener, k: NotificationKind)
    ensures
        spec_subscribed_kinds(m).contains(k) <==> m.spec_listens(k),
        forall|j1: int, j2: int|
            0 <= j1 < j2 < spec_subscribed_kinds(m).len() ==> spec_subscribed_kinds(m)[j1]
                != spec_subscribed_kinds(m)[j2],
{
    crate::events::lemma_flags_partition();
    lemma_kinds_upto_props(m, KIND_COUNT as int);
    if m.spec_listens(k) {
        assert(spec_kind_at(spec_kind_index(k)) == k);
        assert(spec_subscribed_kinds(m).contains(spec_kind_at(spec_kind_index(k))));
    }
}

} // verus!
