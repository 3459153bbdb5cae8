use vstd::prelude::*;
use crate::display::DisplayState;
use crate::graphics::GlesVersion;
use crate::payload::{Context, EventHandler, Lifecycle, WindowPayload, after_frame};
use crate::slot::{FactorySlot, SlotError};
use crate::payload::AppCall;

verus! {

/// Why the launch callback could not set up the window.
#[derive(Clone, Copy, Debug, PartialEq, Eq, Structural)]
pub enum LaunchError {
    /// The device could create no rendering context of any supported version.
    NoRenderingApi,
}

/// The process-wide side of the bridge: the factory slot that the run entry
/// fills and the launch callback empties, and the one window payload that the
/// native delegate looks up on every frame.
pub struct Bridge<H, F> {
    factory: FactorySlot<F>,
    window: Option<WindowPayload<H, F>>,
}

impl<H: EventHandler, F: FnOnce(&mut Context) -> H> Bridge<H, F> {
    /// A window exists exactly once the factory has been handed over, and a
    /// pending factory accepts every context.
    pub closed spec fn wf(&self) -> bool {
        &&& (self.window is Some <==> self.factory is Consumed)
        &&& self.window is Some ==> self.window->0.wf()
        &&& self.factory is Pending ==> forall|c: &mut Context| #[trigger]
            self.factory->0.requires((c,))
    }

    /// Whether the run entry has installed a factory.
    pub closed spec fn installed(&self) -> bool {
        !(self.factory is Empty)
    }

    /// Whether launch has allocated the window.
    pub closed spec fn launched(&self) -> bool {
        self.window is Some
    }

    /// The factory the run entry installed and launch has not taken yet.
    pub closed spec fn pending_factory(&self) -> Option<F> {
        match self.factory {
            FactorySlot::Pending(f) => Some(f),
            _ => None,
        }
    }

    pub closed spec fn window_pending_factory(&self) -> Option<F> {
        self.window->0.pending_factory()
    }

    /// The calls the window's event handler has received.
    pub closed spec fn window_received(&self) -> Seq<AppCall> {
        self.window->0.handler_spec().received()
    }

    pub closed spec fn window_spec(&self) -> Option<WindowPayload<H, F>> {
        self.window
    }

    pub closed spec fn window_lifecycle(&self) -> Lifecycle {
        self.window->0.lifecycle()
    }

    pub closed spec fn window_display(&self) -> DisplayState {
        self.window->0.display_state()
    }

    pub closed spec fn window_api(&self) -> GlesVersion {
        self.window->0.api_spec()
    }

    pub fn new() -> (b: Self)
        ensures
            b.wf(),
            !b.installed(),
            !b.launched(),
    {
        Bridge { factory: FactorySlot::new(), window: None }
    }

    /// The run entry: stores the factory for the launch callback. A process
    /// runs this once; a second call is refused and changes nothing.
    pub fn run(&mut self, f: F) -> (r: Result<(), SlotError>)
        requires
            old(self).wf(),
            forall|c: &mut Context| #[trigger] f.requires((c,)),
        ensures
            final(self).wf(),
            final(self).installed(),
            final(self).launched() == old(self).launched(),
            !old(self).installed() ==> r is Ok && final(self).pending_factory() == Some(f),
            old(self).installed() ==> r == Err::<(), SlotError>(SlotError::AlreadyInstalled)
                && *final(self) == *old(self),
    {
        self.factory.install(f)
    }

    /// The launch callback, given the API version negotiated with the device:
    /// moves the installed factory, still uncalled, into a freshly allocated
    /// payload, which starts uninitialized. The native framework launches
    /// once, after the run entry: a launch without a factory to take is a
    /// broken lifecycle, which the caller must not let happen.
    pub fn did_finish_launching(&mut self, api: Option<GlesVersion>) -> (r: Result<
        (),
        LaunchError,
    >)
        requires
            old(self).wf(),
            old(self).installed(),
            !old(self).launched(),
        ensures
            final(self).wf(),
            final(self).installed(),
            api is None ==> r == Err::<(), LaunchError>(LaunchError::NoRenderingApi)
                && *final(self) == *old(self),
            api is Some ==> {
                &&& r is Ok
                &&& final(self).launched()
                &&& final(self).pending_factory() is None
                &&& final(self).window_pending_factory() == old(self).pending_factory()
                &&& final(self).window_lifecycle() == Lifecycle::fresh()
                &&& final(self).window_display() == DisplayState::initial()
                &&& final(self).window_api() == api->0
            },
    {
        match api {
            None => Err(LaunchError::NoRenderingApi),
            Some(version) => match self.factory.take() {
                Ok(f) => {
                    self.window = Some(WindowPayload::new(f, version));
                    Ok(())
                },
                Err(_) => {
                    // an installed factory that launch has not taken is pending
                    assert(false);
                    Err(LaunchError::NoRenderingApi)
                },
            },
        }
    }

    /// The per-frame draw callback: one frame of the launched window. The
    /// native framework draws only after launch: a frame before it is a
    /// broken lifecycle, which the caller must not let happen.
    pub fn draw_in_rect(&mut self)
        requires
            old(self).wf(),
            old(self).launched(),
        ensures
            final(self).wf(),
            final(self).installed() == old(self).installed(),
            final(self).launched(),
            final(self).pending_factory() is None,
            final(self).window_lifecycle() == after_frame(old(self).window_lifecycle()),
            final(self).window_pending_factory() is None,
            final(self).window_api() == old(self).window_api(),
            old(self).window_lifecycle().running ==> final(self).window_received() == old(
                self,
            ).window_received() + seq![AppCall::Update, AppCall::Draw],
            exists|built: Seq<AppCall>|
                final(self).window_received() == built + seq![AppCall::Update, AppCall::Draw],
    {
        if let Some(w) = &mut self.window {
            w.frame();
        }
    }

    pub fn is_installed(&self) -> (r: bool)
        ensures
            r == self.installed(),
    {
        match self.factory {
            FactorySlot::Empty => false,
            _ => true,
        }
    }

    /// The launched window, if any.
    pub fn window(&self) -> (r: Option<&WindowPayload<H, F>>)
        ensures
            r is Some == self.launched(),
            r is Some ==> Some(*r->0) == self.window_spec(),
    {
        match &self.window {
            Some(w) => Some(w),
            None => None,
        }
    }

    /// The launched window, mutably, for access to its context.
    pub fn window_mut(&mut self) -> (r: Option<&mut WindowPayload<H, F>>)
        requires
            old(self).wf(),
        ensures
            r is Some == old(self).launched(),
            r is None ==> *final(self) == *old(self),
            r is Some ==> {
                &&& Some(*r->0) == old(self).window_spec()
                &&& final(self).window_spec() == Some(*final(r->0))
                &&& final(self).installed() == old(self).installed()
                &&& final(r->0).wf() ==> final(self).wf()
            },
    {
        match &mut self.window {
            Some(w) => Some(w),
            None => None,
        }
    }
}

} // verus!
