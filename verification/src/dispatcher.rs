//! The command dispatcher: a single sequential worker that consumes operator
//! commands, owns the lifecycle of at most one recorded capture session, and
//! turns collaborator results into events.
//!
//! The collaborator calls themselves (discovery, attribute query) suspend and
//! are performed by the surrounding runtime; the decisions — which action a
//! command asks for, which event a collaborator outcome yields — are made
//! here.

use vstd::prelude::*;

use crate::types::{Command, Device, DeviceError, DeviceScan, DiscoveryOutcome, Event};

verus! {

/// The value of the first pair whose key reads `key`, if any.
pub open spec fn lookup_spec(attrs: Seq<(String, String)>, key: Seq<char>) -> Option<Seq<char>>
    decreases attrs.len(),
{
    if attrs.len() == 0 {
        None
    } else if attrs[0].0@ == key {
        Some(attrs[0].1@)
    } else {
        lookup_spec(attrs.drop_first(), key)
    }
}

/// Find the first attribute named `key` in an ordered attribute mapping.
pub fn lookup(attrs: &Vec<(String, String)>, key: &str) -> (r: Option<String>)
    ensures
        (match r {
            Some(v) => lookup_spec(attrs@, key@) == Some(v@),
            None => lookup_spec(attrs@, key@) is None,
        }),
{
    let k: String = key.to_owned();
    let mut i: usize = 0;
    proof {
        assert(attrs@.subrange(0, attrs@.len() as int) =~= attrs@);
    }
    while i < attrs.len()
        invariant
            0 <= i <= attrs@.len(),
            k@ == key@,
            lookup_spec(attrs@, key@) == lookup_spec(
                attrs@.subrange(i as int, attrs@.len() as int),
                key@,
            ),
        decreases attrs@.len() - i,
    {
        let ghost tail = attrs@.subrange(i as int, attrs@.len() as int);
        let pair = &attrs[i];
        if pair.0 == k {
            return Some(pair.1.clone());
        }
        proof {
            assert(tail.drop_first() =~= attrs@.subrange(i + 1, attrs@.len() as int));
        }
        i = i + 1;
    }
    proof {
        assert(attrs@.subrange(attrs@.len() as int, attrs@.len() as int) =~= Seq::<(
            String,
            String,
        )>::empty());
    }
    None
}

/// The (label, value) views of a sequence of string pairs.
pub open spec fn pairs_view(s: Seq<(String, String)>) -> Seq<(Seq<char>, Seq<char>)> {
    s.map_values(|p: (String, String)| (p.0@, p.1@))
}

/// The info row for one identity field: `[(label, value)]` when the device
/// reports the attribute, empty when it does not.
pub open spec fn info_row(
    attrs: Seq<(String, String)>,
    label: Seq<char>,
    key: Seq<char>,
) -> Seq<(Seq<char>, Seq<char>)> {
    match lookup_spec(attrs, key) {
        Some(v) => seq![(label, v)],
        None => Seq::<(Seq<char>, Seq<char>)>::empty(),
    }
}

/// The identity panel for a device: the five identity fields, in a fixed
/// order, each present exactly when the device reports it.
pub open spec fn device_info_spec(attrs: Seq<(String, String)>) -> Seq<(Seq<char>, Seq<char>)> {
    info_row(attrs, "Device Name"@, "DeviceName"@) + info_row(attrs, "Model"@, "ProductType"@)
        + info_row(attrs, "iOS Version"@, "ProductVersion"@) + info_row(
        attrs,
        "Build Number"@,
        "BuildVersion"@,
    ) + info_row(attrs, "UDID"@, "UniqueDeviceID"@)
}

/// Append the info row for one identity field.
fn push_row(out: &mut Vec<(String, String)>, attrs: &Vec<(String, String)>, label: &str, key: &str)
    ensures
        pairs_view(final(out)@) =~= pairs_view(old(out)@) + info_row(attrs@, label@, key@),
{
    let ghost before = out@;
    if let Some(v) = lookup(attrs, key) {
        let ghost vv = v@;
        out.push((label.to_owned(), v));
        proof {
            assert(pairs_view(out@) =~= pairs_view(before) + seq![(label@, vv)]);
        }
    } else {
        proof {
            assert(pairs_view(out@) =~= pairs_view(before) + Seq::<(
                Seq<char>,
                Seq<char>,
            )>::empty());
        }
    }
}

/// Build the ordered (label, value) identity panel for one device from its
/// raw attribute mapping.
pub fn build_device_info(attrs: &Vec<(String, String)>) -> (r: Vec<(String, String)>)
    ensures
        pairs_view(r@) =~= device_info_spec(attrs@),
{
    let mut out: Vec<(String, String)> = Vec::new();
    proof {
        assert(pairs_view(out@) =~= Seq::<(Seq<char>, Seq<char>)>::empty());
    }
    push_row(&mut out, attrs, "Device Name", "DeviceName");
    push_row(&mut out, attrs, "Model", "ProductType");
    push_row(&mut out, attrs, "iOS Version", "ProductVersion");
    push_row(&mut out, attrs, "Build Number", "BuildVersion");
    push_row(&mut out, attrs, "UDID", "UniqueDeviceID");
    out
}

/// The event for one attribute-query outcome: the identity panel on success,
/// no event at all on failure (the failure is visible only in logs).
pub fn device_info_event(query: Result<Vec<(String, String)>, DeviceError>) -> (r: Option<Event>)
    ensures
        (match query {
            Ok(attrs) => (r matches Some(Event::DeviceInfoReady(info)) && pairs_view(info@)
                =~= device_info_spec(attrs@)),
            Err(_) => r is None,
        }),
{
    match query {
        Ok(attrs) => Some(Event::DeviceInfoReady(build_device_info(&attrs))),
        Err(_) => None,
    }
}

/// The device a scan yields: its identifier paired with its reported name,
/// or nothing when the attribute query failed or named no device.
pub open spec fn scan_device(s: DeviceScan) -> Option<(u64, Seq<char>)> {
    match s.attrs {
        Some(attrs) => match lookup_spec(attrs@, "DeviceName"@) {
            Some(name) => Some((s.id, name)),
            None => None,
        },
        None => None,
    }
}

/// The devices a whole scan yields, in discovery order: one per device whose
/// attribute query succeeded and reported a name; the others are skipped.
pub open spec fn assembled_devices(scans: Seq<DeviceScan>) -> Seq<(u64, Seq<char>)>
    decreases scans.len(),
{
    if scans.len() == 0 {
        Seq::<(u64, Seq<char>)>::empty()
    } else {
        assembled_devices(scans.drop_last()) + (match scan_device(scans.last()) {
            Some(d) => seq![d],
            None => Seq::<(u64, Seq<char>)>::empty(),
        })
    }
}

/// The devices `ds` are exactly the identifier/name pairs `m`, in order.
pub open spec fn devices_match(ds: Seq<Device>, m: Seq<(u64, Seq<char>)>) -> bool {
    &&& ds.len() == m.len()
    &&& forall|i: int| 0 <= i < ds.len() ==> ds[i].id == m[i].0 && ds[i].name@ == m[i].1
}

/// Build the device set from a completed scan, skipping every device whose
/// attribute query failed or reported no name.
pub fn assemble_device_list(scans: Vec<DeviceScan>) -> (r: Vec<Device>)
    ensures
        devices_match(r@, assembled_devices(scans@)),
{
    let mut out: Vec<Device> = Vec::new();
    let mut i: usize = 0;
    while i < scans.len()
        invariant
            0 <= i <= scans@.len(),
            devices_match(out@, assembled_devices(scans@.subrange(0, i as int))),
        decreases scans@.len() - i,
    {
        let ghost prefix = scans@.subrange(0, i + 1);
        proof {
            assert(prefix.drop_last() =~= scans@.subrange(0, i as int));
            assert(prefix.last() == scans@[i as int]);
        }
        let scan = &scans[i];
        match &scan.attrs {
            Some(attrs) => {
                match lookup(attrs, "DeviceName") {
                    Some(name) => {
                        out.push(Device { id: scan.id, name });
                    },
                    None => {},
                }
            },
            None => {},
        }
        i = i + 1;
    }
    proof {
        assert(scans@.subrange(0, scans@.len() as int) =~= scans@);
    }
    out
}

/// The single event a device-list request yields: the assembled device set
/// when the scan ran, and exactly one failure event otherwise — per-device
/// query failures never produce a failure event.
pub fn device_list_event(outcome: DiscoveryOutcome) -> (r: Event)
    ensures
        (match outcome {
            DiscoveryOutcome::Unavailable(e) => r == Event::DeviceListUnavailable(e),
            DiscoveryOutcome::ListFailed(e) => r == Event::DeviceListFailed(e),
            DiscoveryOutcome::Listed(scans) => (r matches Event::DeviceList(ds) && devices_match(
                ds@,
                assembled_devices(scans@),
            )),
        }),
{
    match outcome {
        DiscoveryOutcome::Unavailable(e) => Event::DeviceListUnavailable(e),
        DiscoveryOutcome::ListFailed(e) => Event::DeviceListFailed(e),
        DiscoveryOutcome::Listed(scans) => Event::DeviceList(assemble_device_list(scans)),
    }
}

/// What the dispatcher asks the runtime to do for one command.
pub enum DispatcherAction {
    /// Run discovery and the per-device attribute queries.
    Discover,
    /// Query one device's attributes.
    QueryInfo(Device),
    /// Spawn a capture loop for the device, recorded under the session id.
    SpawnCapture(Device, u64),
    /// Request cancellation of the capture task with this session id.
    CancelCapture(u64),
    /// Nothing to do.
    Idle,
}

/// The dispatcher's own state: whether a capture session is recorded, and a
/// counter that names the next one.
pub struct DispatcherState {
    /// The session id of the capture task currently recorded as active.
    pub session: Option<u64>,
    /// The id the next spawned session will carry.
    pub next_session: u64,
}

/// The dispatcher's transition: the state after a command and the action the
/// command asks for. Starting a stream records a fresh session, overwriting
/// any previous record without cancelling it; stopping cancels the recorded
/// session and is a no-op when none is recorded.
pub open spec fn dispatched(s: DispatcherState, cmd: Command) -> (DispatcherState,
    DispatcherAction) {
    match cmd {
        Command::RequestDeviceList => (s, DispatcherAction::Discover),
        Command::RequestDeviceInfo(d) => (s, DispatcherAction::QueryInfo(d)),
        Command::StartStreaming(d) => (
            DispatcherState {
                session: Some(s.next_session),
                next_session: (s.next_session + 1) as u64,
            },
            DispatcherAction::SpawnCapture(d, s.next_session),
        ),
        Command::StopStreaming => match s.session {
            Some(id) => (
                DispatcherState { session: None, next_session: s.next_session },
                DispatcherAction::CancelCapture(id),
            ),
            None => (s, DispatcherAction::Idle),
        },
    }
}

impl DispatcherState {
    pub fn new() -> (s: Self)
        ensures
            s.session is None,
            s.next_session == 0,
    {
        DispatcherState { session: None, next_session: 0 }
    }

    /// Consume one command: update the session record and return the action
    /// the runtime must perform.
    pub fn handle_command(&mut self, cmd: Command) -> (a: DispatcherAction)
        requires
            cmd is StartStreaming ==> old(self).next_session < u64::MAX,
        ensures
            (*final(self), a) == dispatched(*old(self), cmd),
    {
        match cmd {
            Command::RequestDeviceList => DispatcherAction::Discover,
            Command::RequestDeviceInfo(d) => DispatcherAction::QueryInfo(d),
            Command::StartStreaming(d) => {
                let id = self.next_session;
                self.session = Some(id);
                self.next_session = id + 1;
                DispatcherAction::SpawnCapture(d, id)
            },
            Command::StopStreaming => {
                match self.session {
                    Some(id) => {
                        self.session = None;
                        DispatcherAction::CancelCapture(id)
                    },
                    None => DispatcherAction::Idle,
                }
            },
        }
    }
}

/// Law: starting streaming and then immediately stopping cancels exactly the
/// session that the start spawned and leaves no session recorded, so no
/// capture task survives the stop (at most one frame already in flight when
/// the cancellation lands may still arrive).
pub proof fn lemma_start_then_stop(s0: DispatcherState, d: Device)
    requires
        s0.next_session < u64::MAX,
    ensures
        ({
            let (s1, a1) = dispatched(s0, Command::StartStreaming(d));
            let (s2, a2) = dispatched(s1, Command::StopStreaming);
            &&& a1 == DispatcherAction::SpawnCapture(d, s0.next_session)
            &&& a2 == DispatcherAction::CancelCapture(s0.next_session)
            &&& s2.session is None
        }),
{
}

} // verus!
