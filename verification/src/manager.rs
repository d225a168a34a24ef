//! The floating web-window manager: its abstract state, the commands it asks
//! the host to perform, and the verified operations over them.

use vstd::prelude::*;

use crate::geometry::{FrameRect, WindowSize, is_placed_frame};

verus! {

/// Which native classes the host could resolve before construction. The
/// native path needs a web-view configuration class, the web-content view
/// class itself, and the class giving the shared persistent data store.
#[derive(Clone, Copy, PartialEq, Eq, Structural, Debug)]
pub struct NativeClasses {
    pub configuration: bool,
    pub content_view: bool,
    pub data_store: bool,
}

impl NativeClasses {
    /// Every class the native path needs was resolved.
    pub open spec fn all_resolved(self) -> bool {
        self.configuration && self.content_view && self.data_store
    }
}

/// What the host reports about its native UI capability.
#[derive(Clone, Copy, PartialEq, Eq, Structural, Debug)]
pub enum HostEnvironment {
    /// The platform offers native windowing; the probe results say which of
    /// the required classes could be resolved.
    Native(NativeClasses),
    /// The platform offers no native UI: the manager degrades to the
    /// stand-in, which stores addresses but never creates real UI.
    NoNativeUi,
}

/// Why construction failed: a required native class could not be resolved.
/// Fatal and not retried; the caller decides whether to fall back to the
/// stand-in or give up.
#[derive(Clone, Copy, PartialEq, Eq, Structural, Debug)]
pub enum ConstructionError {
    MissingConfigurationClass,
    MissingContentViewClass,
    MissingDataStoreClass,
}

/// One native effect the host must perform, in the order handed out, to make
/// the platform match the manager's state.
#[derive(Debug)]
pub enum NativeCommand {
    /// Create the floating top-level window with this frame and the fixed
    /// chrome: transparent title bar, floating level, opaque, shadowed, and
    /// not released automatically when closed, since the manager owns the
    /// release decision.
    CreateWindow { frame: FrameRect },
    /// Create the web-content view at this size, filling the window's
    /// content area and resizing with it; `persistent_storage` asks for the
    /// shared persistent data scope rather than an ephemeral one.
    AttachContentView { size: WindowSize, persistent_storage: bool },
    /// Issue a fire-and-forget load of `address` on the content view,
    /// superseding any in-flight load.
    IssueLoad { address: String },
    /// Show the window and give it key focus.
    Present,
    /// Remove the window from the screen without destroying it.
    Hide,
    /// Close the still-presented window ahead of release.
    Close,
    /// Release the window's native resources.
    Release,
}

/// The manager's abstract state: which variant it runs as, its presentation
/// and disposal flags, the last requested address, and how many loads it has
/// issued so far.
#[verifier::ext_equal]
pub ghost struct ManagerState {
    pub native: bool,
    pub visible: bool,
    pub disposed: bool,
    pub address: Seq<char>,
    pub loads: nat,
}

impl ManagerState {
    /// The manager's invariant: the stand-in never presents a window and
    /// never issues a load, and a disposed manager is off the screen.
    pub open spec fn inv(self) -> bool {
        &&& !self.native ==> !self.visible && self.loads == 0
        &&& self.disposed ==> !self.visible
    }

    /// The state of a freshly constructed manager: the native variant has
    /// loaded the initial address and presented its window; the stand-in has
    /// only stored the address.
    pub open spec fn constructed(native: bool, address: Seq<char>) -> ManagerState {
        ManagerState {
            native,
            visible: native,
            disposed: false,
            address,
            loads: if native { 1nat } else { 0nat },
        }
    }

    /// How navigation changes the state: the stand-in stores the address
    /// unconditionally; the native variant treats an equal address as a
    /// no-op and otherwise stores it and issues one more load.
    pub open spec fn navigated(self, address: Seq<char>) -> ManagerState {
        if !self.native {
            ManagerState { address, ..self }
        } else if self.address == address {
            self
        } else {
            ManagerState { address, loads: (self.loads + 1) as nat, ..self }
        }
    }

    /// How the visibility toggle changes the state: a pure presentation
    /// flip on the native variant, nothing on the stand-in.
    pub open spec fn hidden_set(self, hidden: bool) -> ManagerState {
        if self.native {
            ManagerState { visible: !hidden, ..self }
        } else {
            self
        }
    }

    /// How disposal changes the state: the first disposal takes the window
    /// off the screen and marks the manager disposed; later ones change
    /// nothing.
    pub open spec fn after_dispose(self) -> ManagerState {
        if self.disposed {
            self
        } else {
            ManagerState { visible: false, disposed: true, ..self }
        }
    }
}

/// The floating web-window manager. It owns the decision side of one
/// window/view pair: callers perform the [`NativeCommand`]s each operation
/// returns, in order, against the native handles they hold for it.
pub struct WebViewManager {
    native: bool,
    visible: bool,
    disposed: bool,
    current_address: String,
    loads_issued: Ghost<nat>,
}

impl View for WebViewManager {
    type V = ManagerState;

    closed spec fn view(&self) -> ManagerState {
        ManagerState {
            native: self.native,
            visible: self.visible,
            disposed: self.disposed,
            address: self.current_address@,
            loads: self.loads_issued@,
        }
    }
}

impl WebViewManager {
    /// The manager is well formed: its abstract state satisfies the
    /// invariant.
    pub open spec fn wf(self) -> bool {
        self@.inv()
    }

    /// Builds a manager for the reported environment, with `address` as the
    /// initial address.
    ///
    /// Without native UI the stand-in always succeeds and asks for nothing.
    /// On the native path, a missing class is fatal (the first missing one,
    /// in the order configuration, content view, data store, names the
    /// error); otherwise the caller receives, in order, the commands to
    /// create the window at its placed frame, attach the content view with
    /// the persistent storage scope, load the initial address, and present
    /// the window.
    pub fn new(
        env: HostEnvironment,
        screen: FrameRect,
        size: WindowSize,
        address: String,
    ) -> (result: Result<(WebViewManager, Vec<NativeCommand>), ConstructionError>)
        requires
            env matches HostEnvironment::Native(_) ==> screen.bounded() && size.bounded(),
        ensures
            match env {
                HostEnvironment::NoNativeUi => {
                    &&& result matches Ok(built)
                        && built.0@ == ManagerState::constructed(false, address@)
                        && built.1@.len() == 0
                    &&& result matches Ok(built) ==> built.0.wf()
                },
                HostEnvironment::Native(classes) => {
                    if !classes.configuration {
                        result matches Err(ConstructionError::MissingConfigurationClass)
                    } else if !classes.content_view {
                        result matches Err(ConstructionError::MissingContentViewClass)
                    } else if !classes.data_store {
                        result matches Err(ConstructionError::MissingDataStoreClass)
                    } else {
                        &&& result matches Ok(built)
                            && built.0@ == ManagerState::constructed(true, address@)
                            && built.1@.len() == 4
                            && (built.1@[0] matches NativeCommand::CreateWindow { frame }
                                && is_placed_frame(frame, screen, size))
                            && (built.1@[1] matches NativeCommand::AttachContentView {
                                size: view_size,
                                persistent_storage,
                            } && view_size == size && persistent_storage)
                            && (built.1@[2] matches NativeCommand::IssueLoad { address: loaded }
                                && loaded@ == address@)
                            && (built.1@[3] is Present)
                        &&& result matches Ok(built) ==> built.0.wf()
                    }
                },
            },
    {
        match env {
            HostEnvironment::NoNativeUi => {
                let manager = WebViewManager {
                    native: false,
                    visible: false,
                    disposed: false,
                    current_address: address,
                    loads_issued: Ghost(0nat),
                };
                proof {
                    assert(manager@ =~= ManagerState::constructed(false, manager.current_address@));
                }
                Ok((manager, Vec::new()))
            },
            HostEnvironment::Native(classes) => {
                if !classes.configuration {
                    return Err(ConstructionError::MissingConfigurationClass);
                }
                if !classes.content_view {
                    return Err(ConstructionError::MissingContentViewClass);
                }
                if !classes.data_store {
                    return Err(ConstructionError::MissingDataStoreClass);
                }
                let frame = crate::geometry::initial_frame(screen, size);
                let mut commands: Vec<NativeCommand> = Vec::new();
                commands.push(NativeCommand::CreateWindow { frame });
                commands.push(NativeCommand::AttachContentView { size, persistent_storage: true });
                commands.push(NativeCommand::IssueLoad { address: address.clone() });
                commands.push(NativeCommand::Present);
                let manager = WebViewManager {
                    native: true,
                    visible: true,
                    disposed: false,
                    current_address: address,
                    loads_issued: Ghost(1nat),
                };
                proof {
                    assert(manager@ =~= ManagerState::constructed(true, manager.current_address@));
                }
                Ok((manager, commands))
            },
        }
    }

    /// Navigates to `address`, fire and forget.
    ///
    /// On the native variant an address equal to the stored one is a no-op;
    /// a different one is stored and yields exactly one load command. The
    /// stand-in stores the address unconditionally and yields nothing.
    pub fn navigate(&mut self, address: String) -> (commands: Vec<NativeCommand>)
        requires
            old(self).wf(),
            !old(self)@.disposed,
        ensures
            final(self).wf(),
            final(self)@ == old(self)@.navigated(address@),
            if old(self)@.native && old(self)@.address != address@ {
                commands@.len() == 1
                    && (commands@[0] matches NativeCommand::IssueLoad { address: loaded }
                        && loaded@ == address@)
            } else {
                commands@.len() == 0
            },
    {
        if self.native {
            if self.current_address == address {
                proof {
                    assert(self@ =~= old(self)@.navigated(address@));
                }
                return Vec::new();
            }
            self.current_address = address.clone();
            proof {
                self.loads_issued@ = self.loads_issued@ + 1;
            }
            let mut commands: Vec<NativeCommand> = Vec::new();
            commands.push(NativeCommand::IssueLoad { address });
            proof {
                assert(self@ =~= old(self)@.navigated(self.current_address@));
            }
            commands
        } else {
            self.current_address = address;
            proof {
                assert(self@ =~= old(self)@.navigated(self.current_address@));
            }
            Vec::new()
        }
    }

    /// Toggles presentation: `true` takes the window off the screen without
    /// destroying anything, `false` re-presents it with key focus. A pure,
    /// cheap toggle that is safe to repeat; the stand-in does nothing.
    pub fn set_hidden(&mut self, hidden: bool) -> (commands: Vec<NativeCommand>)
        requires
            old(self).wf(),
            !old(self)@.disposed,
        ensures
            final(self).wf(),
            final(self)@ == old(self)@.hidden_set(hidden),
            if old(self)@.native {
                commands@.len() == 1 && (if hidden {
                    commands@[0] is Hide
                } else {
                    commands@[0] is Present
                })
            } else {
                commands@.len() == 0
            },
    {
        let mut commands: Vec<NativeCommand> = Vec::new();
        if self.native {
            if hidden {
                commands.push(NativeCommand::Hide);
            } else {
                commands.push(NativeCommand::Present);
            }
            self.visible = !hidden;
        }
        proof {
            assert(self@ =~= old(self)@.hidden_set(hidden));
        }
        commands
    }

    /// The window's presented state, as the manager tracks it; the stand-in
    /// is never visible.
    pub fn is_visible(&self) -> (visible: bool)
        ensures
            visible == self@.visible,
    {
        self.visible
    }

    /// The last address requested through construction or navigation.
    pub fn current_address(&self) -> (address: &str)
        ensures
            address@ == self@.address,
    {
        self.current_address.as_str()
    }

    /// Tears the manager down. The first call on a native manager closes the
    /// window first if it is still presented, then releases it — exactly one
    /// release ever. Any later call, and every call on the stand-in, asks
    /// for nothing, so disposal is idempotent and never double-releases.
    pub fn dispose(&mut self) -> (commands: Vec<NativeCommand>)
        requires
            old(self).wf(),
        ensures
            final(self).wf(),
            final(self)@ == old(self)@.after_dispose(),
            if old(self)@.disposed || !old(self)@.native {
                commands@.len() == 0
            } else if old(self)@.visible {
                commands@.len() == 2 && commands@[0] is Close && commands@[1] is Release
            } else {
                commands@.len() == 1 && commands@[0] is Release
            },
    {
        let mut commands: Vec<NativeCommand> = Vec::new();
        if !self.disposed {
            if self.native {
                if self.visible {
                    commands.push(NativeCommand::Close);
                }
                commands.push(NativeCommand::Release);
            }
            self.visible = false;
            self.disposed = true;
        }
        proof {
            assert(self@ =~= old(self)@.after_dispose());
        }
        commands
    }
}

/// A freshly constructed manager is presented exactly when it is native:
/// construction followed by a visibility query answers true on the native
/// path and false on the stand-in path — and the new state is well formed.
pub proof fn lemma_constructed_visibility(native: bool, address: Seq<char>)
    ensures
        ManagerState::constructed(native, address).visible == native,
        ManagerState::constructed(native, address).inv(),
{
}

/// Navigating to the address already stored changes nothing: the state after
/// is the state before, on the native variant and the stand-in alike, and by
/// the load count no further load is issued.
pub proof fn lemma_navigate_same_address_no_op(state: ManagerState)
    ensures
        state.navigated(state.address) == state,
{
    assert(state.navigated(state.address) =~= state);
}

/// Navigating a native manager twice, first away from the stored address and
/// then to a different address again, stores the second address and issues
/// exactly two loads.
pub proof fn lemma_navigate_twice_distinct(
    state: ManagerState,
    first: Seq<char>,
    second: Seq<char>,
)
    requires
        state.native,
        state.address != first,
        first != second,
    ensures
        state.navigated(first).navigated(second).address == second,
        state.navigated(first).navigated(second).loads == state.loads + 2,
{
}

/// On the native variant the visibility toggle drives the presented state
/// directly, whatever the prior state: hiding leaves the window off the
/// screen, showing leaves it on.
pub proof fn lemma_set_hidden_drives_visibility(state: ManagerState, hidden: bool)
    requires
        state.native,
    ensures
        state.hidden_set(hidden).visible == !hidden,
{
}

/// The visibility toggle is idempotent: setting the same intent twice in a
/// row leaves exactly the state that setting it once leaves.
pub proof fn lemma_set_hidden_idempotent(state: ManagerState, hidden: bool)
    ensures
        state.hidden_set(hidden).hidden_set(hidden) == state.hidden_set(hidden),
{
    assert(state.hidden_set(hidden).hidden_set(hidden) =~= state.hidden_set(hidden));
}

/// Disposal is idempotent: disposing twice leaves exactly the state that
/// disposing once leaves. By the command contract of `dispose`, the second
/// call also asks for no release, so nothing is released twice.
pub proof fn lemma_dispose_idempotent(state: ManagerState)
    ensures
        state.after_dispose().after_dispose() == state.after_dispose(),
{
    assert(state.after_dispose().after_dispose() =~= state.after_dispose());
}

/// The stand-in keeps its bargain: it is never visible, and navigation
/// stores any address unconditionally while issuing no load.
pub proof fn lemma_stand_in_behavior(state: ManagerState, address: Seq<char>)
    requires
        !state.native,
        state.inv(),
    ensures
        !state.visible,
        state.navigated(address).address == address,
        state.navigated(address).loads == state.loads,
        state.navigated(address).inv(),
{
}

} // verus!
