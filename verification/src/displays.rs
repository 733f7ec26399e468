//! The connection to the compositor and the globals bound on it, resolved
//! once and then served from a cache.
//!
//! Connecting and binding are the caller's work: they need the socket. What
//! is decided here is the order of that work and what follows from each of
//! its outcomes. The caller hands [`unwrap`] an [`Event`], does what the
//! returned [`Step`] asks for, and comes back with the next event, until the
//! step is [`Step::Ready`] or [`Step::Failed`].

use std::sync::Arc;
use vstd::prelude::*;

verus! {

/// A global that is bound during bootstrap: the name of its interface and the
/// exact version to bind.
#[derive(Debug, Clone, Copy, PartialEq, Eq)]
pub struct Requirement {
    pub name: &'static str,
    pub min_version: u32,
}

/// How many globals a bundle cannot do without.
pub const REQUIRED: usize = 5;

/// The helper that is bound first. It may be absent: bootstrap goes on
/// without it.
pub open spec fn optional_global() -> Requirement {
    Requirement { name: "zxdg_output_manager_v1", min_version: 1 }
}

/// The globals that every bundle holds, in the order in which they are bound.
pub open spec fn required_globals() -> Seq<Requirement> {
    seq![
        Requirement { name: "xdg_wm_base", min_version: 2 },
        Requirement { name: "zxdg_decoration_manager_v1", min_version: 1 },
        Requirement { name: "zwlr_layershell_v1", min_version: 1 },
        Requirement { name: "wl_compositor", min_version: 4 },
        Requirement { name: "wl_shm", min_version: 1 },
    ]
}

/// The helper that is bound first.
pub fn optional() -> (requirement: Requirement)
    ensures
        requirement == optional_global(),
{
    Requirement { name: "zxdg_output_manager_v1", min_version: 1 }
}

/// The `index`-th required global, if there are that many.
pub fn required(index: usize) -> (requirement: Option<Requirement>)
    ensures
        index < REQUIRED ==> requirement == Some(required_globals()[index as int]),
        index >= REQUIRED ==> requirement is None,
{
    if index == 0 {
        Some(Requirement { name: "xdg_wm_base", min_version: 2 })
    } else if index == 1 {
        Some(Requirement { name: "zxdg_decoration_manager_v1", min_version: 1 })
    } else if index == 2 {
        Some(Requirement { name: "zwlr_layershell_v1", min_version: 1 })
    } else if index == 3 {
        Some(Requirement { name: "wl_compositor", min_version: 4 })
    } else if index == 4 {
        Some(Requirement { name: "wl_shm", min_version: 1 })
    } else {
        None
    }
}

/// Why the registry could not bind a global.
#[derive(Debug, Clone, Copy, PartialEq, Eq)]
pub enum BindError {
    /// The compositor does not advertise the interface.
    Missing,
    /// The compositor advertises the interface, but only up to this version.
    VersionTooLow(u32),
}

/// Why there is no bundle of globals.
#[derive(Debug, Clone, Copy, PartialEq, Eq)]
pub enum ConnectionError {
    /// No compositor can be reached from this environment.
    Unreachable,
    /// A required global is absent, or the compositor only has an older
    /// version of it.
    MissingGlobal { name: &'static str, min_version: u32 },
}

/// The connection and the globals bound on it. `H` is whatever the caller
/// uses as a handle to a protocol object; it is carried, never looked into.
///
/// A bundle is only ever made whole: there is none with a global missing.
#[derive(Debug)]
pub struct Globals<H> {
    pub display: H,
    pub xdg_base: H,
    pub decoration_manager: H,
    pub layer_shell: H,
    pub compositor: H,
    pub shm: H,
}

impl<H> Globals<H> {
    /// The bundle of a connection and the handles of the required globals,
    /// which are given in the order of [`required_globals`].
    pub open spec fn assembled(display: H, bound: Seq<H>) -> Globals<H>
        recommends
            bound.len() == REQUIRED,
    {
        Globals {
            display,
            xdg_base: bound[0],
            decoration_manager: bound[1],
            layer_shell: bound[2],
            compositor: bound[3],
            shm: bound[4],
        }
    }

    fn assemble(display: H, bound: Vec<H>) -> (globals: Globals<H>)
        requires
            bound.len() == REQUIRED,
        ensures
            globals == Globals::assembled(display, bound@),
    {
        let mut bound = bound;
        let shm = bound.pop().unwrap();
        let compositor = bound.pop().unwrap();
        let layer_shell = bound.pop().unwrap();
        let decoration_manager = bound.pop().unwrap();
        let xdg_base = bound.pop().unwrap();
        Globals { display, xdg_base, decoration_manager, layer_shell, compositor, shm }
    }
}

/// What the caller reports to [`unwrap`].
#[derive(Debug)]
pub enum Event<H> {
    /// Somebody asks for the bundle.
    Resolve,
    /// The connection is up; this is its handle.
    Connected(H),
    /// No compositor could be reached.
    Unreachable,
    /// The global that was asked for is bound; this is its handle.
    Bound(H),
    /// The global that was asked for could not be bound.
    Unavailable(BindError),
}

/// What [`unwrap`] asks the caller to do next.
#[derive(Debug)]
pub enum Step<H> {
    /// Nothing: here is the bundle.
    Ready(Arc<Globals<H>>),
    /// Connect to the compositor and attach an event queue, then report
    /// [`Event::Connected`] or [`Event::Unreachable`].
    Connect,
    /// Bind this global at exactly this version, then report [`Event::Bound`]
    /// or [`Event::Unavailable`].
    Bind(Requirement),
    /// Nothing: there is no bundle, for this reason. Nothing was cached, and
    /// the next [`Event::Resolve`] starts over.
    Failed(ConnectionError),
    /// The event answers nothing that was asked. Nothing has changed; what
    /// was asked before is still awaited.
    Ignored,
}

/// A [`Step`] with its bundle as a plain record.
pub enum StepModel<H> {
    Ready(Globals<H>),
    Connect,
    Bind(Requirement),
    Failed(ConnectionError),
    Ignored,
}

impl<H> View for Step<H> {
    type V = StepModel<H>;

    open spec fn view(&self) -> StepModel<H> {
        match *self {
            Step::Ready(bundle) => StepModel::Ready(*bundle),
            Step::Connect => StepModel::Connect,
            Step::Bind(requirement) => StepModel::Bind(requirement),
            Step::Failed(error) => StepModel::Failed(error),
            Step::Ignored => StepModel::Ignored,
        }
    }
}

/// How far a bootstrap has come.
pub enum Phase<H> {
    /// None is under way.
    Idle,
    /// The connection was asked for.
    Connecting,
    /// The connection is up and the optional helper was asked for.
    Probing { display: H },
    /// The required globals are being bound; `bound` holds the handles of
    /// those that are, in the order of [`required_globals`], and the next one
    /// was asked for.
    Binding { display: H, bound: Seq<H> },
}

/// The cache and the bootstrap under way, as a mathematical record.
pub struct SingletonModel<H> {
    pub cached: Option<Globals<H>>,
    pub phase: Phase<H>,
}

impl<H> SingletonModel<H> {
    /// What every singleton satisfies: a bootstrap is only under way while
    /// nothing is cached, and while it binds, a required global is still
    /// missing.
    pub open spec fn wf(self) -> bool {
        match self.phase {
            Phase::Idle => true,
            Phase::Connecting => self.cached is None,
            Phase::Probing { .. } => self.cached is None,
            Phase::Binding { bound, .. } => self.cached is None && bound.len() < REQUIRED,
        }
    }

    /// The singleton after `event`.
    ///
    /// A request for the bundle starts a bootstrap only if nothing is cached.
    /// A bootstrap connects, tries the optional helper, then binds the
    /// required globals in order. The first required global that cannot be
    /// bound ends it, as does an unreachable compositor, and leaves nothing
    /// behind. Only when the last required global is bound is the bundle made
    /// and cached. An event that was not asked for changes nothing.
    pub open spec fn after(self, event: Event<H>) -> SingletonModel<H> {
        match (self.phase, event) {
            (Phase::Idle, Event::Resolve) => if self.cached is Some {
                self
            } else {
                SingletonModel { cached: None, phase: Phase::Connecting }
            },
            (Phase::Connecting, Event::Connected(display)) => SingletonModel {
                cached: None,
                phase: Phase::Probing { display },
            },
            (Phase::Connecting, Event::Unreachable) => SingletonModel {
                cached: None,
                phase: Phase::Idle,
            },
            (Phase::Probing { display }, Event::Bound(_)) => SingletonModel {
                cached: None,
                phase: Phase::Binding { display, bound: Seq::empty() },
            },
            (Phase::Probing { display }, Event::Unavailable(_)) => SingletonModel {
                cached: None,
                phase: Phase::Binding { display, bound: Seq::empty() },
            },
            (Phase::Binding { display, bound }, Event::Bound(handle)) => if bound.len() + 1
                < REQUIRED {
                SingletonModel {
                    cached: None,
                    phase: Phase::Binding { display, bound: bound.push(handle) },
                }
            } else {
                SingletonModel {
                    cached: Some(Globals::assembled(display, bound.push(handle))),
                    phase: Phase::Idle,
                }
            },
            (Phase::Binding { .. }, Event::Unavailable(_)) => SingletonModel {
                cached: None,
                phase: Phase::Idle,
            },
            _ => self,
        }
    }

    /// The singleton after all of `events`, first to last.
    pub open spec fn run(self, events: Seq<Event<H>>) -> SingletonModel<H>
        decreases events.len(),
    {
        if events.len() == 0 {
            self
        } else {
            self.run(events.drop_last()).after(events.last())
        }
    }

    /// What the caller is asked to do after `event`.
    pub open spec fn reply(self, event: Event<H>) -> StepModel<H> {
        match (self.phase, event) {
            (Phase::Idle, Event::Resolve) => match self.cached {
                Some(bundle) => StepModel::Ready(bundle),
                None => StepModel::Connect,
            },
            (Phase::Connecting, Event::Connected(_)) => StepModel::Bind(optional_global()),
            (Phase::Connecting, Event::Unreachable) => StepModel::Failed(
                ConnectionError::Unreachable,
            ),
            (Phase::Probing { .. }, Event::Bound(_)) => StepModel::Bind(required_globals()[0]),
            (Phase::Probing { .. }, Event::Unavailable(_)) => StepModel::Bind(
                required_globals()[0],
            ),
            (Phase::Binding { display, bound }, Event::Bound(handle)) => if bound.len() + 1
                < REQUIRED {
                StepModel::Bind(required_globals()[bound.len() + 1int])
            } else {
                StepModel::Ready(Globals::assembled(display, bound.push(handle)))
            },
            (Phase::Binding { bound, .. }, Event::Unavailable(_)) => StepModel::Failed(
                ConnectionError::MissingGlobal {
                    name: required_globals()[bound.len() as int].name,
                    min_version: required_globals()[bound.len() as int].min_version,
                },
            ),
            _ => StepModel::Ignored,
        }
    }
}

/// Another handle to the value that `handle` shares, made with `Arc::clone`.
/// The clone points to the same allocation, so it stands for the same value.
#[verifier::external_body]
fn share<T>(handle: &Arc<T>) -> (shared: Arc<T>)
    ensures
        shared == *handle,
{
    Arc::clone(handle)
}

enum Progress<H> {
    Idle,
    Connecting,
    Probing { display: H },
    Binding { display: H, bound: Vec<H> },
}

/// The holder of the bundle: empty until a bootstrap succeeds, and then
/// serving the same bundle to everybody.
///
/// It is not a lock. Where several threads resolve, the caller keeps it behind
/// a mutex and holds that for the whole of a bootstrap.
pub struct Singleton<H> {
    cached: Option<Arc<Globals<H>>>,
    progress: Progress<H>,
}

impl<H> View for Singleton<H> {
    type V = SingletonModel<H>;

    closed spec fn view(&self) -> SingletonModel<H> {
        SingletonModel {
            cached: match self.cached {
                Some(bundle) => Some(*bundle),
                None => None,
            },
            phase: match self.progress {
                Progress::Idle => Phase::Idle,
                Progress::Connecting => Phase::Connecting,
                Progress::Probing { display } => Phase::Probing { display },
                Progress::Binding { display, bound } => Phase::Binding { display, bound: bound@ },
            },
        }
    }
}

impl<H> Singleton<H> {
    #[verifier::type_invariant]
    spec fn inv(self) -> bool {
        self@.wf()
    }

    /// An empty holder with no bootstrap under way.
    pub fn new() -> (instance: Singleton<H>)
        ensures
            instance@ == (SingletonModel::<H> { cached: None, phase: Phase::Idle }),
            instance@.wf(),
    {
        Singleton { cached: None, progress: Progress::Idle }
    }

    /// The cached bundle, if a bootstrap has succeeded.
    pub fn cached(&self) -> (bundle: Option<Arc<Globals<H>>>)
        ensures
            self@.wf(),
            bundle is Some <==> self@.cached is Some,
            bundle matches Some(shared) ==> *shared == self@.cached->0,
    {
        proof {
            use_type_invariant(self);
        }
        match &self.cached {
            Some(bundle) => Some(share(bundle)),
            None => None,
        }
    }
}

/// Takes the resolution of the bundle one step further.
///
/// The holder moves as [`SingletonModel::after`] says and the caller is asked
/// for what [`SingletonModel::reply`] says. In particular a cached bundle is
/// returned at once, and nothing is cached unless every required global was
/// bound.
pub fn unwrap<H>(instance: &mut Singleton<H>, event: Event<H>) -> (step: Step<H>)
    ensures
        old(instance)@.wf(),
        final(instance)@.wf(),
        final(instance)@ == old(instance)@.after(event),
        step@ == old(instance)@.reply(event),
{
    proof {
        use_type_invariant(&*instance);
    }
    let mut progress = Progress::Idle;
    core::mem::swap(&mut instance.progress, &mut progress);
    match (progress, event) {
        (Progress::Idle, Event::Resolve) => match &instance.cached {
            Some(bundle) => Step::Ready(share(bundle)),
            None => {
                instance.progress = Progress::Connecting;
                Step::Connect
            },
        },
        (Progress::Connecting, Event::Connected(display)) => {
            instance.progress = Progress::Probing { display };
            Step::Bind(optional())
        },
        (Progress::Connecting, Event::Unreachable) => Step::Failed(ConnectionError::Unreachable),
        (Progress::Probing { display }, Event::Bound(_)) => {
            instance.progress = Progress::Binding { display, bound: Vec::new() };
            Step::Bind(required(0).unwrap())
        },
        (Progress::Probing { display }, Event::Unavailable(_)) => {
            instance.progress = Progress::Binding { display, bound: Vec::new() };
            Step::Bind(required(0).unwrap())
        },
        (Progress::Binding { display, bound }, Event::Bound(handle)) => {
            let mut bound = bound;
            bound.push(handle);
            if bound.len() < REQUIRED {
                let next = required(bound.len()).unwrap();
                instance.progress = Progress::Binding { display, bound };
                Step::Bind(next)
            } else {
                let bundle = Arc::new(Globals::assemble(display, bound));
                let shared = share(&bundle);
                instance.cached = Some(bundle);
                Step::Ready(shared)
            }
        },
        (Progress::Binding { bound, .. }, Event::Unavailable(_)) => {
            let missing = required(bound.len()).unwrap();
            Step::Failed(
                ConnectionError::MissingGlobal {
                    name: missing.name,
                    min_version: missing.min_version,
                },
            )
        },
        (progress, _) => {
            instance.progress = progress;
            Step::Ignored
        },
    }
}

/// Whatever happens, a holder stays well-formed.
pub proof fn after_keeps_wf<H>(model: SingletonModel<H>, event: Event<H>)
    requires
        model.wf(),
    ensures
        model.after(event).wf(),
{
}

/// Once a bundle is cached it stays, and bootstrap never runs again: no event
/// changes the holder, every request is answered with that bundle, and the
/// caller is never again asked to connect or to bind.
pub proof fn cached_bundle_is_served<H>(model: SingletonModel<H>, event: Event<H>)
    requires
        model.wf(),
        model.cached is Some,
    ensures
        model.after(event) == model,
        event is Resolve ==> model.reply(event) == StepModel::Ready(model.cached->0),
        !(event is Resolve) ==> model.reply(event) == StepModel::<H>::Ignored,
{
}

/// However many events follow, a cached bundle stays the same, and each
/// request among them is answered with it: everybody who asks after a
/// bootstrap has succeeded sees the one bundle that it made.
pub proof fn cached_bundle_is_served_forever<H>(
    model: SingletonModel<H>,
    events: Seq<Event<H>>,
    i: int,
)
    requires
        model.wf(),
        model.cached is Some,
        0 <= i <= events.len(),
    ensures
        model.run(events.take(i)) == model,
        i < events.len() && events[i] is Resolve ==> model.run(events.take(i)).reply(events[i])
            == StepModel::Ready(model.cached->0),
        i < events.len() && !(events[i] is Resolve) ==> model.run(events.take(i)).reply(
            events[i],
        ) == StepModel::<H>::Ignored,
    decreases i,
{
    if i > 0 {
        cached_bundle_is_served_forever(model, events, i - 1);
        assert(events.take(i).drop_last() == events.take(i - 1));
        cached_bundle_is_served(model, events[i - 1]);
    }
    if i < events.len() {
        cached_bundle_is_served(model, events[i]);
    }
}

/// The caller is asked to connect in one situation only: somebody asks for
/// the bundle while none is cached and no bootstrap is under way. So a
/// bootstrap never runs beside another, and never after one has succeeded.
pub proof fn connects_only_when_empty<H>(model: SingletonModel<H>, event: Event<H>)
    requires
        model.wf(),
    ensures
        model.reply(event) is Connect <==> model.phase is Idle && model.cached is None
            && event is Resolve,
        model.reply(event) is Bind ==> !(model.phase is Idle) && model.cached is None,
{
}

/// A bundle enters the cache in one way only: whole, when the last required
/// global is bound, made of the connection and the five handles in the order
/// in which they were asked for.
pub proof fn bundle_is_cached_whole<H>(model: SingletonModel<H>, event: Event<H>)
    requires
        model.wf(),
        model.cached is None,
        model.after(event).cached is Some,
    ensures
        model.phase matches Phase::Binding { display, bound } && event matches Event::Bound(handle)
            && bound.len() + 1 == REQUIRED && model.after(event).cached == Some(
            Globals::assembled(display, bound.push(handle)),
        ) && model.reply(event) == StepModel::Ready(model.after(event).cached->0),
{
}

/// A bootstrap that fails leaves nothing behind. When the compositor cannot
/// be reached, or a required global cannot be bound for either cause, the
/// caller is told why, nothing is cached, and the next request starts a
/// bootstrap from its first step.
pub proof fn failure_is_not_cached<H>(model: SingletonModel<H>, event: Event<H>)
    requires
        model.wf(),
        model.reply(event) is Failed,
    ensures
        model.after(event) == (SingletonModel::<H> { cached: None, phase: Phase::Idle }),
        model.after(event).reply(Event::Resolve) == StepModel::<H>::Connect,
        model.after(event).after(Event::Resolve).phase is Connecting,
        model.phase is Connecting ==> event is Unreachable && model.reply(event)
            == StepModel::<H>::Failed(ConnectionError::Unreachable),
        model.phase matches Phase::Binding { bound, .. } ==> event is Unavailable && model.reply(
            event,
        ) == StepModel::<H>::Failed(
            ConnectionError::MissingGlobal {
                name: required_globals()[bound.len() as int].name,
                min_version: required_globals()[bound.len() as int].min_version,
            },
        ),
        model.phase is Connecting || model.phase is Binding,
{
}

/// A required global that cannot be bound always fails the bootstrap, and the
/// optional one never does.
pub proof fn only_required_globals_fail<H>(model: SingletonModel<H>, cause: BindError)
    requires
        model.wf(),
    ensures
        model.phase is Binding ==> model.reply(Event::Unavailable(cause)) is Failed,
        model.phase is Probing ==> model.reply(Event::Unavailable(cause)) == StepModel::<H>::Bind(
            required_globals()[0],
        ),
{
}

} // verus!
