use vstd::prelude::*;
use vstd::hash_map::HashMapWithView;
use vstd::std_specs::hash::obeys_key_model;
use crate::encoding::{html_data_url, html_data_url_of};

verus! {

broadcast use vstd::std_specs::hash::group_hash_axioms;

/// Title of every host window.
pub const WINDOW_TITLE: &'static str = "Nula App";

/// The page that a new view shows before any HTML is loaded into it.
pub const INITIAL_PAGE_URL: &'static str = "data:text/html,<html><body><h1>Hello from Nula GUI!</h1><script>console.log('JS ready');</script></body></html>";

/// Where a host stands in its life.
#[derive(Clone, Copy, Debug, PartialEq, Eq, Structural)]
pub enum HostPhase {
    /// Window, view and event loop are built and still owned by the handle.
    Created,
    /// The dispatch loop has taken the window, view and event loop.
    Running,
    /// The dispatch loop has returned after the window was closed.
    Closed,
}

/// Opaque reference to one host. Zero is never handed out.
#[derive(Clone, Copy, Debug, PartialEq, Eq, Structural)]
pub struct GuiHandle {
    pub id: u64,
}

/// Why an operation on a handle did not go ahead.
#[derive(Clone, Copy, Debug, PartialEq, Eq, Structural)]
pub enum GuiError {
    /// The window size is not positive in both dimensions.
    InvalidSize,
    /// Every handle number has been handed out.
    HandlesExhausted,
    /// The handle is unknown: never created, or already destroyed.
    InvalidHandle,
    /// The dispatch loop holds the view (or has run): the call cannot reach it.
    NotCreated,
    /// The dispatch loop is running on this host.
    StillRunning,
}

/// What `destroy` released.
#[derive(Clone, Copy, Debug, PartialEq, Eq, Structural)]
pub enum Released {
    /// The handle still owned the window, view and event loop: drop them.
    HostResources,
    /// The dispatch loop had already consumed them: only the handle goes.
    HandleOnly,
}

/// What the dispatch loop does with one platform event.
#[derive(Clone, Copy, Debug, PartialEq, Eq, Structural)]
pub enum LoopAction {
    /// Leave the loop.
    Exit,
    /// Hand the event to the view and wait for the next one.
    Forward,
}

/// The platform events that the dispatch loop tells apart.
#[derive(Clone, Copy, Debug, PartialEq, Eq, Structural)]
pub enum HostEvent {
    /// The user asked to close the window.
    CloseRequested,
    /// Input, resize, paint and everything else.
    Other,
}

/// The live hosts, each under its own handle number.
pub struct HostRegistry {
    hosts: HashMapWithView<u64, HostPhase>,
    next_id: u64,
}

/// The registry as a map from handle number to phase.
pub type Hosts = Map<u64, HostPhase>;

/// A window size that a host can be built with.
pub open spec fn valid_size(width: i32, height: i32) -> bool {
    width > 0 && height > 0
}

/// Result of `load_html` or `emit_js` on a handle, before its payload.
pub open spec fn reach_outcome(hosts: Hosts, id: u64) -> Result<(), GuiError> {
    if !hosts.contains_key(id) {
        Err(GuiError::InvalidHandle)
    } else if hosts[id] != HostPhase::Created {
        Err(GuiError::NotCreated)
    } else {
        Ok(())
    }
}

/// Result of `load_html`: the URL to navigate the view to.
pub open spec fn load_outcome(hosts: Hosts, id: u64, html: Seq<char>) -> Result<Seq<char>, GuiError> {
    match reach_outcome(hosts, id) {
        Ok(()) => Ok(html_data_url_of(html)),
        Err(e) => Err(e),
    }
}

/// Result of `emit_js`: the script to evaluate in the view.
pub open spec fn emit_outcome(hosts: Hosts, id: u64, script: Seq<char>) -> Result<Seq<char>, GuiError> {
    match reach_outcome(hosts, id) {
        Ok(()) => Ok(script),
        Err(e) => Err(e),
    }
}

/// Result of `run`; on success the host becomes `Running`.
pub open spec fn run_outcome(hosts: Hosts, id: u64) -> Result<(), GuiError> {
    reach_outcome(hosts, id)
}

/// The registry after `run`.
pub open spec fn hosts_after_run(hosts: Hosts, id: u64) -> Hosts {
    if run_outcome(hosts, id) is Ok {
        hosts.insert(id, HostPhase::Running)
    } else {
        hosts
    }
}

/// Result of `destroy`; on success the handle leaves the registry.
pub open spec fn destroy_outcome(hosts: Hosts, id: u64) -> Result<Released, GuiError> {
    if !hosts.contains_key(id) {
        Err(GuiError::InvalidHandle)
    } else if hosts[id] == HostPhase::Running {
        Err(GuiError::StillRunning)
    } else if hosts[id] == HostPhase::Created {
        Ok(Released::HostResources)
    } else {
        Ok(Released::HandleOnly)
    }
}

/// The registry after `destroy`.
pub open spec fn hosts_after_destroy(hosts: Hosts, id: u64) -> Hosts {
    if destroy_outcome(hosts, id) is Ok {
        hosts.remove(id)
    } else {
        hosts
    }
}

/// The action of the dispatch loop on an event.
pub open spec fn loop_action_of(event: HostEvent) -> LoopAction {
    match event {
        HostEvent::CloseRequested => LoopAction::Exit,
        HostEvent::Other => LoopAction::Forward,
    }
}

/// A result with its text seen as characters.
pub open spec fn view_string_result(r: Result<String, GuiError>) -> Result<Seq<char>, GuiError> {
    match r {
        Ok(s) => Ok(s@),
        Err(e) => Err(e),
    }
}

impl HostRegistry {
    /// The live hosts, by handle number.
    pub closed spec fn hosts(&self) -> Hosts {
        self.hosts@
    }

    /// The number that the next host gets.
    pub closed spec fn next_id(&self) -> u64 {
        self.next_id
    }

    /// Every handle number in use is above zero and below the next one.
    pub open spec fn wf(&self) -> bool {
        &&& 0 < self.next_id()
        &&& forall|id: u64| #[trigger] self.hosts().contains_key(id) ==> 0 < id < self.next_id()
    }

    /// An empty registry.
    pub fn new() -> (r: Self)
        ensures
            r.wf(),
            r.hosts() == Map::<u64, HostPhase>::empty(),
            r.next_id() == 1,
    {
        proof {
            assert(obeys_key_model::<u64>());
        }
        HostRegistry { hosts: HashMapWithView::new(), next_id: 1 }
    }

    /// The number of live hosts.
    pub fn live_count(&self) -> (r: usize)
        ensures
            r == self.hosts().len(),
    {
        self.hosts.len()
    }

    /// The phase of a handle's host, if the handle is live.
    pub fn phase(&self, handle: GuiHandle) -> (r: Option<HostPhase>)
        ensures
            r == (if self.hosts().contains_key(handle.id) {
                Some(self.hosts()[handle.id])
            } else {
                None::<HostPhase>
            }),
    {
        match self.hosts.get(&handle.id) {
            Some(p) => Some(*p),
            None => None,
        }
    }
}

/// Registers a new host whose window, view and event loop have been built
/// at the given logical size, under a handle number never used before.
pub fn nula_gui_init(registry: &mut HostRegistry, width: i32, height: i32) -> (r: Result<GuiHandle, GuiError>)
    requires
        old(registry).wf(),
    ensures
        final(registry).wf(),
        !valid_size(width, height) ==> r == Err::<GuiHandle, GuiError>(GuiError::InvalidSize)
            && final(registry).hosts() == old(registry).hosts()
            && final(registry).next_id() == old(registry).next_id(),
        valid_size(width, height) && old(registry).next_id() == u64::MAX ==> r == Err::<GuiHandle, GuiError>(GuiError::HandlesExhausted)
            && final(registry).hosts() == old(registry).hosts()
            && final(registry).next_id() == old(registry).next_id(),
        valid_size(width, height) && old(registry).next_id() < u64::MAX ==> r == Ok::<GuiHandle, GuiError>(GuiHandle { id: old(registry).next_id() })
            && !old(registry).hosts().contains_key(old(registry).next_id())
            && final(registry).hosts() == old(registry).hosts().insert(old(registry).next_id(), HostPhase::Created)
            && final(registry).next_id() == old(registry).next_id() + 1,
{
    if width <= 0 || height <= 0 {
        return Err(GuiError::InvalidSize);
    }
    if registry.next_id == u64::MAX {
        return Err(GuiError::HandlesExhausted);
    }
    let id = registry.next_id;
    registry.hosts.insert(id, HostPhase::Created);
    registry.next_id = id + 1;
    proof {
        assert forall|k: u64| #[trigger] registry.hosts().contains_key(k) implies 0 < k
            < registry.next_id() by {
            if k != id {
                assert(old(registry).hosts().contains_key(k));
            }
        }
    }
    Ok(GuiHandle { id })
}

/// Decides whether HTML can be loaded into a handle's view; if so, gives
/// the data URL that the view is to navigate to.
pub fn nula_gui_load_html(registry: &HostRegistry, handle: GuiHandle, html: &str) -> (r: Result<String, GuiError>)
    ensures
        view_string_result(r) == load_outcome(registry.hosts(), handle.id, html@),
{
    match registry.hosts.get(&handle.id) {
        None => Err(GuiError::InvalidHandle),
        Some(p) => {
            if *p == HostPhase::Created {
                Ok(html_data_url(html))
            } else {
                Err(GuiError::NotCreated)
            }
        }
    }
}

/// Decides whether a script can be evaluated in a handle's view; if so,
/// gives the script to evaluate.
pub fn nula_gui_emit_js(registry: &HostRegistry, handle: GuiHandle, js_code: &str) -> (r: Result<String, GuiError>)
    ensures
        view_string_result(r) == emit_outcome(registry.hosts(), handle.id, js_code@),
{
    match registry.hosts.get(&handle.id) {
        None => Err(GuiError::InvalidHandle),
        Some(p) => {
            if *p == HostPhase::Created {
                Ok(js_code.to_string())
            } else {
                Err(GuiError::NotCreated)
            }
        }
    }
}

/// Hands a handle's window, view and event loop to the dispatch loop: the
/// host becomes `Running`, and loading or evaluating through the handle
/// stops reaching the view.
pub fn nula_gui_run(registry: &mut HostRegistry, handle: GuiHandle) -> (r: Result<(), GuiError>)
    requires
        old(registry).wf(),
    ensures
        final(registry).wf(),
        r == run_outcome(old(registry).hosts(), handle.id),
        final(registry).hosts() == hosts_after_run(old(registry).hosts(), handle.id),
        final(registry).next_id() == old(registry).next_id(),
{
    match registry.hosts.get(&handle.id) {
        None => Err(GuiError::InvalidHandle),
        Some(p) => {
            if *p == HostPhase::Created {
                registry.hosts.insert(handle.id, HostPhase::Running);
                proof {
                    assert forall|k: u64| #[trigger] registry.hosts().contains_key(k) implies 0 < k
                        < registry.next_id() by {
                        assert(old(registry).hosts().contains_key(k));
                    }
                }
                Ok(())
            } else {
                Err(GuiError::NotCreated)
            }
        }
    }
}

/// The decision of the dispatch loop on one event: a close request ends
/// the loop, every other event goes to the view.
pub fn loop_action(event: HostEvent) -> (r: LoopAction)
    ensures
        r == loop_action_of(event),
{
    match event {
        HostEvent::CloseRequested => LoopAction::Exit,
        HostEvent::Other => LoopAction::Forward,
    }
}

/// Records that a host's dispatch loop has returned: a `Running` host
/// becomes `Closed`; any other registry is left as it is.
pub fn nula_gui_run_finished(registry: &mut HostRegistry, handle: GuiHandle) -> (r: bool)
    requires
        old(registry).wf(),
    ensures
        final(registry).wf(),
        r == (old(registry).hosts().contains_key(handle.id) && old(registry).hosts()[handle.id]
            == HostPhase::Running),
        final(registry).hosts() == (if r {
            old(registry).hosts().insert(handle.id, HostPhase::Closed)
        } else {
            old(registry).hosts()
        }),
        final(registry).next_id() == old(registry).next_id(),
{
    match registry.hosts.get(&handle.id) {
        None => false,
        Some(p) => {
            if *p == HostPhase::Running {
                registry.hosts.insert(handle.id, HostPhase::Closed);
                proof {
                    assert forall|k: u64| #[trigger] registry.hosts().contains_key(k) implies 0 < k
                        < registry.next_id() by {
                        assert(old(registry).hosts().contains_key(k));
                    }
                }
                true
            } else {
                false
            }
        }
    }
}

/// Retires a handle. A host that still owns its window, view and event
/// loop gives them up to be dropped; a closed host gives up its handle
/// only. A running host, or a handle already retired, is refused, so a
/// second destroy of one handle cannot release anything twice.
pub fn nula_gui_destroy(registry: &mut HostRegistry, handle: GuiHandle) -> (r: Result<Released, GuiError>)
    requires
        old(registry).wf(),
    ensures
        final(registry).wf(),
        r == destroy_outcome(old(registry).hosts(), handle.id),
        final(registry).hosts() == hosts_after_destroy(old(registry).hosts(), handle.id),
        final(registry).next_id() == old(registry).next_id(),
{
    let phase = match registry.hosts.get(&handle.id) {
        None => {
            return Err(GuiError::InvalidHandle);
        },
        Some(p) => *p,
    };
    if phase == HostPhase::Running {
        return Err(GuiError::StillRunning);
    }
    registry.hosts.remove(&handle.id);
    proof {
        assert forall|k: u64| #[trigger] registry.hosts().contains_key(k) implies 0 < k
            < registry.next_id() by {
            assert(old(registry).hosts().contains_key(k));
        }
    }
    if phase == HostPhase::Created {
        Ok(Released::HostResources)
    } else {
        Ok(Released::HandleOnly)
    }
}

/// A host created and destroyed without running gives back its window,
/// view and event loop, and leaves the registry as it found it; the
/// dispatch loop never ran.
pub proof fn lemma_init_then_destroy(hosts: Hosts, id: u64)
    requires
        !hosts.contains_key(id),
    ensures
        destroy_outcome(hosts.insert(id, HostPhase::Created), id) == Ok::<Released, GuiError>(Released::HostResources),
        hosts_after_destroy(hosts.insert(id, HostPhase::Created), id) == hosts,
{
    assert(hosts.insert(id, HostPhase::Created).remove(id) =~= hosts);
}

/// Destroying, once, a live handle that was never run releases its window,
/// view and event loop, and the registry holds one host fewer.
pub proof fn lemma_destroy_unrun_releases(hosts: Hosts, id: u64)
    requires
        hosts.dom().finite(),
        hosts.contains_key(id),
        hosts[id] == HostPhase::Created,
    ensures
        destroy_outcome(hosts, id) == Ok::<Released, GuiError>(Released::HostResources),
        !hosts_after_destroy(hosts, id).contains_key(id),
        hosts_after_destroy(hosts, id).len() + 1 == hosts.len(),
{
}

/// Once a host has begun to run, loading HTML and evaluating scripts
/// through its handle do nothing: both are refused, and neither touches
/// the registry.
pub proof fn lemma_running_host_is_inert(hosts: Hosts, id: u64, html: Seq<char>, script: Seq<char>)
    requires
        run_outcome(hosts, id) is Ok,
    ensures
        load_outcome(hosts_after_run(hosts, id), id, html) == Err::<Seq<char>, GuiError>(GuiError::NotCreated),
        emit_outcome(hosts_after_run(hosts, id), id, script) == Err::<Seq<char>, GuiError>(GuiError::NotCreated),
{
}

/// On a freshly created host, evaluating a script is never refused, before
/// any page script has run.
pub proof fn lemma_emit_on_fresh_host(hosts: Hosts, id: u64, script: Seq<char>)
    ensures
        emit_outcome(hosts.insert(id, HostPhase::Created), id, script) == Ok::<Seq<char>, GuiError>(script),
{
}

} // verus!
