use vstd::prelude::*;
use crate::display::{DisplayState, IosDisplay};
use crate::graphics::{GlesVersion, GraphicsContext};
use crate::slot::FactorySlot;

verus! {

/// What application code receives on each call: the rendering context and
/// the display capabilities, together.
pub struct Context<'a> {
    pub graphics: &'a mut GraphicsContext,
    pub display: &'a mut IosDisplay,
}

/// The application's per-frame callbacks. An implementation keeps a record
/// of the calls it has received, which each callback extends by itself.
pub trait EventHandler {
    /// The record of received calls. A verified handler states its own (a
    /// ghost field serves); the empty default cannot grow, so only a handler
    /// that Verus does not check can keep it.
    open spec fn received(&self) -> Seq<AppCall> {
        Seq::empty()
    }

    fn update(&mut self, ctx: &mut Context)
        ensures
            final(self).received() == old(self).received().push(AppCall::Update),
    ;

    fn draw(&mut self, ctx: &mut Context)
        ensures
            final(self).received() == old(self).received().push(AppCall::Draw),
    ;
}

/// A call the bridge makes into application code.
#[derive(Clone, Copy, Debug, PartialEq, Eq, Structural)]
pub enum AppCall {
    Factory,
    Update,
    Draw,
}

/// Model of a payload's lifecycle: whether it is running, and every call made
/// into application code so far, in order.
pub struct Lifecycle {
    pub running: bool,
    pub calls: Seq<AppCall>,
}

impl Lifecycle {
    /// A payload just allocated at launch.
    pub open spec fn fresh() -> Lifecycle {
        Lifecycle { running: false, calls: Seq::empty() }
    }
}

/// Calls made by one frame: the first one builds the handler before it
/// updates and draws.
pub open spec fn frame_calls(running: bool) -> Seq<AppCall> {
    if running {
        seq![AppCall::Update, AppCall::Draw]
    } else {
        seq![AppCall::Factory, AppCall::Update, AppCall::Draw]
    }
}

/// The lifecycle after one more frame.
pub open spec fn after_frame(m: Lifecycle) -> Lifecycle {
    Lifecycle { running: true, calls: m.calls + frame_calls(m.running) }
}

/// The lifecycle after `n` more frames.
pub open spec fn run_frames(m: Lifecycle, n: nat) -> Lifecycle
    decreases n,
{
    if n == 0 {
        m
    } else {
        run_frames(after_frame(m), (n - 1) as nat)
    }
}

enum Stage<H> {
    Uninitialized,
    Running { graphics: GraphicsContext, handler: H },
}

/// All per-window state: the display capabilities, the negotiated rendering
/// API, the pending factory and, from the first frame on, the rendering
/// context and the event handler.
pub struct WindowPayload<H, F> {
    display: IosDisplay,
    api: GlesVersion,
    factory: FactorySlot<F>,
    stage: Stage<H>,
    /// Every call made into application code, for proofs only.
    calls: Ghost<Seq<AppCall>>,
}

impl<H: EventHandler, F: FnOnce(&mut Context) -> H> WindowPayload<H, F> {
    /// The factory is pending exactly while no handler exists, is consumed
    /// exactly while one does, and accepts every context.
    pub closed spec fn wf(&self) -> bool {
        &&& (self.stage is Uninitialized <==> self.factory is Pending)
        &&& (self.stage is Running <==> self.factory is Consumed)
        &&& (self.stage is Running <==> self.calls@.len() > 0)
        &&& self.factory is Pending ==> forall|c: &mut Context| #[trigger]
            self.factory->0.requires((c,))
    }

    pub closed spec fn lifecycle(&self) -> Lifecycle {
        Lifecycle { running: self.stage is Running, calls: self.calls@ }
    }

    pub closed spec fn display_state(&self) -> DisplayState {
        self.display@
    }

    pub closed spec fn api_spec(&self) -> GlesVersion {
        self.api
    }

    pub closed spec fn factory_pending(&self) -> bool {
        self.factory is Pending
    }

    /// The factory the payload still holds, not yet called.
    pub closed spec fn pending_factory(&self) -> Option<F> {
        match self.factory {
            FactorySlot::Pending(f) => Some(f),
            _ => None,
        }
    }

    /// A payload as launch allocates it: uninitialized, factory pending.
    pub fn new(f: F, api: GlesVersion) -> (p: Self)
        requires
            forall|c: &mut Context| #[trigger] f.requires((c,)),
        ensures
            p.wf(),
            p.lifecycle() == Lifecycle::fresh(),
            p.factory_pending(),
            p.pending_factory() == Some(f),
            p.display_state() == DisplayState::initial(),
            p.api_spec() == api,
    {
        WindowPayload {
            display: IosDisplay::new(),
            api,
            factory: FactorySlot::Pending(f),
            stage: Stage::Uninitialized,
            calls: Ghost(Seq::empty()),
        }
    }

    /// One frame. The first builds the rendering context and hands it to the
    /// factory for the handler; every frame then updates and draws.
    pub fn frame(&mut self)
        requires
            old(self).wf(),
        ensures
            final(self).wf(),
            final(self).lifecycle() == after_frame(old(self).lifecycle()),
            !final(self).factory_pending(),
            final(self).pending_factory() is None,
            final(self).api_spec() == old(self).api_spec(),
            old(self).lifecycle().running ==> final(self).handler_spec().received() == old(
                self,
            ).handler_spec().received() + seq![AppCall::Update, AppCall::Draw],
            exists|built: Seq<AppCall>|
                final(self).handler_spec().received() == built + seq![
                    AppCall::Update,
                    AppCall::Draw,
                ],
    {
        if let Stage::Uninitialized = self.stage {
            if let Ok(f) = self.factory.take() {
                let mut graphics = GraphicsContext::new(self.api);
                let handler = {
                    let mut ctx = Context { graphics: &mut graphics, display: &mut self.display };
                    f(&mut ctx)
                };
                self.stage = Stage::Running { graphics, handler };
                self.calls = Ghost(self.calls@.push(AppCall::Factory));
            }
        }
        if let Stage::Running { graphics, handler } = &mut self.stage {
            let ghost before = handler.received();
            let mut ctx = Context { graphics, display: &mut self.display };
            handler.update(&mut ctx);
            self.calls = Ghost(self.calls@.push(AppCall::Update));
            handler.draw(&mut ctx);
            self.calls = Ghost(self.calls@.push(AppCall::Draw));
            assert(handler.received() =~= before + seq![AppCall::Update, AppCall::Draw]);
        }
        assert(self.calls@ =~= old(self).calls@ + frame_calls(old(self).stage is Running));
    }

    pub closed spec fn graphics_spec(&self) -> GraphicsContext {
        self.stage->graphics
    }

    pub closed spec fn handler_spec(&self) -> H {
        self.stage->handler
    }

    /// The context and the handler of a running payload, borrowed together;
    /// `None` before the first frame.
    pub fn context(&mut self) -> (r: Option<(Context<'_>, &mut H)>)
        requires
            old(self).wf(),
        ensures
            r is Some <==> old(self).lifecycle().running,
            r is None ==> *final(self) == *old(self),
            r is Some ==> {
                let (ctx, h) = r->0;
                &&& *ctx.graphics == old(self).graphics_spec()
                &&& (*ctx.display)@ == old(self).display_state()
                &&& *h == old(self).handler_spec()
                &&& final(self).wf()
                &&& final(self).lifecycle() == old(self).lifecycle()
                &&& final(self).pending_factory() == old(self).pending_factory()
                &&& final(self).api_spec() == old(self).api_spec()
                &&& final(self).graphics_spec() == *final(ctx.graphics)
                &&& final(self).display_state() == final(ctx.display)@
                &&& final(self).handler_spec() == *final(h)
            },
    {
        match &mut self.stage {
            Stage::Running { graphics, handler } => Some(
                (Context { graphics, display: &mut self.display }, handler),
            ),
            Stage::Uninitialized => None,
        }
    }

    pub fn is_running(&self) -> (r: bool)
        ensures
            r == self.lifecycle().running,
    {
        match self.stage {
            Stage::Running { .. } => true,
            Stage::Uninitialized => false,
        }
    }

    pub fn has_pending_factory(&self) -> (r: bool)
        ensures
            r == self.factory_pending(),
    {
        self.factory.is_pending()
    }

    pub fn api(&self) -> (r: GlesVersion)
        ensures
            r == self.api_spec(),
    {
        self.api
    }

    /// The display capabilities, for requests made outside a frame, before
    /// or after the handler exists; nothing but the display changes.
    pub fn display_mut(&mut self) -> (r: &mut IosDisplay)
        ensures
            (*r)@ == old(self).display_state(),
            final(self).display_state() == final(r)@,
            final(self).lifecycle() == old(self).lifecycle(),
            final(self).pending_factory() == old(self).pending_factory(),
            final(self).api_spec() == old(self).api_spec(),
            final(self).graphics_spec() == old(self).graphics_spec(),
            final(self).handler_spec() == old(self).handler_spec(),
            old(self).wf() ==> final(self).wf(),
    {
        &mut self.display
    }

    pub fn display(&self) -> (r: &IosDisplay)
        ensures
            r@ == self.display_state(),
    {
        &self.display
    }
}

} // verus!

verus! {

/// `n` frames' worth of update/draw pairs.
pub open spec fn frame_pairs(n: nat) -> Seq<AppCall>
    decreases n,
{
    if n == 0 {
        Seq::empty()
    } else {
        frame_pairs((n - 1) as nat) + seq![AppCall::Update, AppCall::Draw]
    }
}

/// Running `n + 1` frames is running `n` and then one more.
pub proof fn lemma_run_frames_last(m: Lifecycle, n: nat)
    ensures
        run_frames(m, n + 1) == after_frame(run_frames(m, n)),
    decreases n,
{
    if n == 0 {
        assert(run_frames(after_frame(m), 0) == after_frame(m));
    } else {
        lemma_run_frames_last(after_frame(m), (n - 1) as nat);
        assert(run_frames(m, n) == run_frames(after_frame(m), (n - 1) as nat));
    }
}

/// The handler and the rendering context exist after a frame exactly when
/// they existed before it or the frame ran: they appear on the first frame
/// and never go away again, and the record of calls only ever grows.
pub proof fn lemma_running_from_first_frame(m: Lifecycle, n: nat)
    ensures
        run_frames(m, n).running == (m.running || n > 0),
        m.calls.is_prefix_of(run_frames(m, n).calls),
    decreases n,
{
    if n > 0 {
        lemma_run_frames_last(m, (n - 1) as nat);
        lemma_running_from_first_frame(m, (n - 1) as nat);
        let prev = run_frames(m, (n - 1) as nat);
        assert(prev.calls.is_prefix_of(run_frames(m, n).calls));
    }
}

/// Each of `n` frames contributes an update followed by a draw.
pub proof fn lemma_frame_pairs(n: nat)
    ensures
        frame_pairs(n).len() == 2 * n,
        forall|j: int|
            0 <= j < n ==> #[trigger] frame_pairs(n)[2 * j] == AppCall::Update && frame_pairs(
                n,
            )[2 * j + 1] == AppCall::Draw,
    decreases n,
{
    if n > 0 {
        lemma_frame_pairs((n - 1) as nat);
    }
}

/// From a freshly launched payload, `n` frames call the factory once, on the
/// first frame, and then, frame after frame, `update` followed by `draw`.
pub proof fn lemma_calls_from_launch(n: nat)
    ensures
        n == 0 ==> run_frames(Lifecycle::fresh(), n).calls.len() == 0,
        n > 0 ==> run_frames(Lifecycle::fresh(), n).calls == seq![AppCall::Factory]
            + frame_pairs(n),
    decreases n,
{
    if n > 0 {
        lemma_run_frames_last(Lifecycle::fresh(), (n - 1) as nat);
        lemma_running_from_first_frame(Lifecycle::fresh(), (n - 1) as nat);
        lemma_calls_from_launch((n - 1) as nat);
        assert(frame_pairs(0) =~= Seq::<AppCall>::empty());
        assert(run_frames(Lifecycle::fresh(), n).calls =~= seq![AppCall::Factory] + frame_pairs(n));
    }
}

/// The factory runs at most once per payload, whatever the number of frames:
/// exactly once, as the first call, once a frame has run.
pub proof fn lemma_factory_called_once(n: nat)
    ensures
        forall|i: int|
            0 <= i < run_frames(Lifecycle::fresh(), n).calls.len() ==> (#[trigger] run_frames(
                Lifecycle::fresh(),
                n,
            ).calls[i] == AppCall::Factory <==> i == 0),
{
    lemma_calls_from_launch(n);
    lemma_frame_pairs(n);
    let calls = run_frames(Lifecycle::fresh(), n).calls;
    assert forall|i: int| 0 <= i < calls.len() implies (#[trigger] calls[i] == AppCall::Factory
        <==> i == 0) by {
        if i == 0 {
            assert(calls[0] == AppCall::Factory);
        } else {
            let k = i - 1;
            let j = k / 2;
            assert(k == 2 * j || k == 2 * j + 1);
            assert(calls[i] == frame_pairs(n)[k]);
            assert(frame_pairs(n)[2 * j] == AppCall::Update);
        }
    }
}

/// Within every frame after launch, `update` comes right before `draw`.
pub proof fn lemma_update_before_draw(n: nat)
    ensures
        n > 0 ==> run_frames(Lifecycle::fresh(), n).calls.len() == 2 * n + 1,
        forall|j: int|
            0 <= j < n ==> #[trigger] run_frames(Lifecycle::fresh(), n).calls[2 * j + 1]
                == AppCall::Update && run_frames(Lifecycle::fresh(), n).calls[2 * j + 2]
                == AppCall::Draw,
{
    lemma_calls_from_launch(n);
    lemma_frame_pairs(n);
}

} // verus!
