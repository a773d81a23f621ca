//! Hotkey roles and bindings, the registry that owns the bindings, and the
//! routing of backend events to roles.

use crate::app::Msg;
use crate::config::Config;
use global_hotkey::hotkey::HotKey;
use std::str::FromStr;
use vstd::pervasive::unreached;
use vstd::prelude::*;

verus! {

/// Identifier of the trigger shortcut under the desktop portal.
pub const WL_TRIGGER_ID: u32 = 0;

/// Identifier of the enable/disable shortcut under the desktop portal.
pub const WL_TOGGLE_ACTIVE_ID: u32 = 1;

/// Accelerator of the trigger when none is stored.
pub const DEFAULT_TRIGGER: &'static str = "Insert";

/// Accelerator of the enable/disable hotkey when none is stored.
pub const DEFAULT_TOGGLE_ACTIVE: &'static str = "CTRL+SUPER+P";

/// The two things a hotkey can do.
#[derive(Debug, Clone, Copy, PartialEq, Eq, Structural)]
pub enum HotKeyAction {
    /// Unmutes the microphone while held.
    Trigger,
    /// Switches push-to-talk on or off.
    ToggleActive,
}

/// One value for each hotkey role.
#[derive(Debug, Clone, PartialEq, Eq)]
pub struct HotKeyConfig<T> {
    pub trigger: T,
    pub toggle_active: T,
}

/// Whether a hotkey went down or came up.
#[derive(Debug, Clone, Copy, PartialEq, Eq, Structural)]
pub enum HotKeyState {
    Pressed,
    Released,
}

/// What `HotKey::from_str` of the global-hotkey crate makes of an accelerator
/// text: nothing if it rejects the text, else the hotkey's id and its
/// canonical text (`HotKey::id`, `HotKey::into_string`). The grammar has one
/// family of tokens ("CmdOrCtrl") whose meaning is fixed when the crate is
/// built: this stands for the result on the platform that the library is built
/// for.
pub uninterp spec fn parsed_hotkey(text: Seq<char>) -> Option<(u32, Seq<char>)>;

/// Parses an accelerator with `HotKey::from_str` and hands out the hotkey's
/// id and canonical text. Trusted: that the call is a function of the text,
/// and that it accepts the two default accelerators ("Insert" is a key name by
/// itself; "CTRL", "SUPER" are modifier tokens and "P" is a key name).
#[verifier::external_body]
fn hotkey_from_str(text: &str) -> (r: Option<(u32, String)>)
    ensures
        match r {
            Some((id, description)) => parsed_hotkey(text@) == Some((id, description@)),
            None => parsed_hotkey(text@) is None,
        },
        text@ == DEFAULT_TRIGGER@ || text@ == DEFAULT_TOGGLE_ACTIVE@ ==> r is Some,
{
    match HotKey::from_str(text) {
        Ok(hotkey) => Some((hotkey.id(), hotkey.into_string())),
        Err(_) => None,
    }
}

/// An accelerator together with the id under which the backend reports it and
/// the text under which it is shown and stored.
#[derive(Debug, PartialEq, Eq)]
pub struct HotkeyBinding {
    accelerator: String,
    id: u32,
    description: String,
}

/// A binding, with its texts as sequences of characters.
pub struct BindingView {
    pub accelerator: Seq<char>,
    pub id: u32,
    pub description: Seq<char>,
}

impl View for HotkeyBinding {
    type V = BindingView;

    closed spec fn view(&self) -> BindingView {
        BindingView { accelerator: self.accelerator@, id: self.id, description: self.description@ }
    }
}

/// The binding that the accelerator `text` stands for, if it is one.
pub open spec fn binding_of(text: Seq<char>) -> Option<BindingView> {
    match parsed_hotkey(text) {
        Some((id, description)) => Some(BindingView { accelerator: text, id, description }),
        None => None,
    }
}

/// The view of an optional binding.
pub open spec fn binding_view(b: Option<HotkeyBinding>) -> Option<BindingView> {
    match b {
        Some(b) => Some(b@),
        None => None,
    }
}

impl HotkeyBinding {
    #[verifier::type_invariant]
    spec fn well_formed(self) -> bool {
        binding_of(self.accelerator@) == Some(self@)
    }

    /// The binding for an accelerator such as `"shift+alt+KeyQ"`, or `None`
    /// if the text is no accelerator.
    pub fn parse(text: &str) -> (r: Option<HotkeyBinding>)
        ensures
            binding_view(r) == binding_of(text@),
            text@ == DEFAULT_TRIGGER@ || text@ == DEFAULT_TOGGLE_ACTIVE@ ==> r is Some,
    {
        match hotkey_from_str(text) {
            Some((id, description)) => Some(
                HotkeyBinding { accelerator: text.to_owned(), id, description },
            ),
            None => None,
        }
    }

    /// The id under which the backend reports this hotkey.
    pub fn id(&self) -> (id: u32)
        ensures
            id == self@.id,
            binding_of(self@.accelerator) == Some(self@),
    {
        proof {
            use_type_invariant(self);
        }
        self.id
    }

    /// The text that this binding was parsed from.
    pub fn accelerator(&self) -> (text: &str)
        ensures
            text@ == self@.accelerator,
    {
        self.accelerator.as_str()
    }

    /// The canonical text of the hotkey, as shown to the user and stored.
    pub fn description(&self) -> (text: &str)
        ensures
            text@ == self@.description,
    {
        self.description.as_str()
    }

}

impl Clone for HotkeyBinding {
    /// A second binding for the same hotkey.
    fn clone(&self) -> (r: Self)
        ensures
            r@ == self@,
    {
        proof {
            use_type_invariant(self);
        }
        HotkeyBinding {
            accelerator: self.accelerator.clone(),
            id: self.id,
            description: self.description.clone(),
        }
    }
}

impl<T> HotKeyConfig<T> {
    /// The value held for `role`.
    pub open spec fn of(self, role: HotKeyAction) -> T {
        match role {
            HotKeyAction::Trigger => self.trigger,
            HotKeyAction::ToggleActive => self.toggle_active,
        }
    }

    /// This configuration with `value` for `role`.
    pub open spec fn with(self, role: HotKeyAction, value: T) -> HotKeyConfig<T> {
        match role {
            HotKeyAction::Trigger => HotKeyConfig { trigger: value, toggle_active: self.toggle_active },
            HotKeyAction::ToggleActive => HotKeyConfig { trigger: self.trigger, toggle_active: value },
        }
    }

    /// The value held for `role`.
    pub fn get(&self, role: HotKeyAction) -> (value: &T)
        ensures
            *value == self.of(role),
    {
        match role {
            HotKeyAction::Trigger => &self.trigger,
            HotKeyAction::ToggleActive => &self.toggle_active,
        }
    }

    /// Replaces the value held for `role` and hands back the previous one.
    pub fn replace(&mut self, role: HotKeyAction, value: T) -> (previous: T)
        ensures
            previous == old(self).of(role),
            *final(self) == old(self).with(role, value),
    {
        match role {
            HotKeyAction::Trigger => {
                let mut value = value;
                std::mem::swap(&mut self.trigger, &mut value);
                value
            },
            HotKeyAction::ToggleActive => {
                let mut value = value;
                std::mem::swap(&mut self.toggle_active, &mut value);
                value
            },
        }
    }
}

/// The views of both bindings.
pub open spec fn binding_views(c: HotKeyConfig<HotkeyBinding>) -> HotKeyConfig<BindingView> {
    HotKeyConfig { trigger: c.trigger@, toggle_active: c.toggle_active@ }
}

/// The views of both texts.
pub open spec fn text_views(c: HotKeyConfig<String>) -> HotKeyConfig<Seq<char>> {
    HotKeyConfig { trigger: c.trigger@, toggle_active: c.toggle_active@ }
}

/// The ids of both bindings.
pub open spec fn binding_ids(c: HotKeyConfig<BindingView>) -> HotKeyConfig<u32> {
    HotKeyConfig { trigger: c.trigger.id, toggle_active: c.toggle_active.id }
}

/// The canonical texts of both bindings.
pub open spec fn binding_descriptions(c: HotKeyConfig<BindingView>) -> HotKeyConfig<Seq<char>> {
    HotKeyConfig { trigger: c.trigger.description, toggle_active: c.toggle_active.description }
}

impl Default for HotKeyConfig<HotkeyBinding> {
    /// The bindings of a fresh installation: bare Insert to talk,
    /// Control+Super+P to switch push-to-talk on and off.
    fn default() -> (r: Self)
        ensures
            Some(r.trigger@) == binding_of(DEFAULT_TRIGGER@),
            Some(r.toggle_active@) == binding_of(DEFAULT_TOGGLE_ACTIVE@),
    {
        let trigger = match HotkeyBinding::parse(DEFAULT_TRIGGER) {
            Some(b) => b,
            None => unreached(),
        };
        let toggle_active = match HotkeyBinding::parse(DEFAULT_TOGGLE_ACTIVE) {
            Some(b) => b,
            None => unreached(),
        };
        HotKeyConfig { trigger, toggle_active }
    }
}

impl Default for HotKeyConfig<String> {
    /// Two empty texts.
    fn default() -> (r: Self)
        ensures
            r.trigger@ == Seq::<char>::empty(),
            r.toggle_active@ == Seq::<char>::empty(),
    {
        HotKeyConfig { trigger: String::new(), toggle_active: String::new() }
    }
}

/// The stored texts that stand for both bindings: their canonical texts.
pub open spec fn stored_texts(c: HotKeyConfig<BindingView>) -> HotKeyConfig<Option<Seq<char>>> {
    HotKeyConfig {
        trigger: Some(c.trigger.description),
        toggle_active: Some(c.toggle_active.description),
    }
}

/// The role that an event with `id` belongs to, given the ids that the
/// roles are bound to at this moment. The trigger is asked first.
pub open spec fn route(ids: HotKeyConfig<u32>, id: u32) -> Option<HotKeyAction> {
    if id == ids.trigger {
        Some(HotKeyAction::Trigger)
    } else if id == ids.toggle_active {
        Some(HotKeyAction::ToggleActive)
    } else {
        None
    }
}

/// The message that an edge of a hotkey with the given role leads to: the
/// trigger mutes on release and unmutes on press, the toggle acts on press
/// only, and an event of no role is dropped.
pub open spec fn hotkey_msg(role: Option<HotKeyAction>, state: HotKeyState) -> Option<Msg> {
    match role {
        Some(HotKeyAction::Trigger) => Some(Msg::SetMuted(state == HotKeyState::Released)),
        Some(HotKeyAction::ToggleActive) => if state == HotKeyState::Pressed {
            Some(Msg::ToggleActive)
        } else {
            None
        },
        None => None,
    }
}

/// Resolves a backend event to the message for the core, by the ids that
/// the roles are bound to when the event is dispatched.
pub fn handle_hotkey_press(id: u32, state: HotKeyState, hotkey_ids: &HotKeyConfig<u32>) -> (msg:
    Option<Msg>)
    ensures
        msg == hotkey_msg(route(*hotkey_ids, id), state),
{
    if id == hotkey_ids.trigger {
        Some(Msg::SetMuted(state == HotKeyState::Released))
    } else if id == hotkey_ids.toggle_active && state == HotKeyState::Pressed {
        Some(Msg::ToggleActive)
    } else {
        None
    }
}

/// A shortcut as it is offered to the desktop portal.
#[derive(Debug, Clone, PartialEq, Eq)]
pub struct WlNewHotKeyAction {
    pub id: u32,
    pub description: String,
    /// The accelerator that the portal is asked to start with.
    pub accelerator: String,
}

/// The text under which the portal lists the trigger.
pub const WL_TRIGGER_DESCRIPTION: &'static str = "Push-to-talk trigger/unmute microphone";

/// The text under which the portal lists the enable/disable shortcut.
pub const WL_TOGGLE_ACTIVE_DESCRIPTION: &'static str = "Enable/disable push-to-talk";

/// The two shortcuts to offer to the desktop portal, in one request: each
/// with its fixed id, its description and the default accelerator of its role.
pub fn wl_hotkey_actions() -> (actions: HotKeyConfig<WlNewHotKeyAction>)
    ensures
        actions.trigger.id == WL_TRIGGER_ID,
        actions.trigger.description@ == WL_TRIGGER_DESCRIPTION@,
        actions.trigger.accelerator@ == DEFAULT_TRIGGER@,
        actions.toggle_active.id == WL_TOGGLE_ACTIVE_ID,
        actions.toggle_active.description@ == WL_TOGGLE_ACTIVE_DESCRIPTION@,
        actions.toggle_active.accelerator@ == DEFAULT_TOGGLE_ACTIVE@,
{
    HotKeyConfig {
        trigger: WlNewHotKeyAction {
            id: WL_TRIGGER_ID,
            description: WL_TRIGGER_DESCRIPTION.to_owned(),
            accelerator: DEFAULT_TRIGGER.to_owned(),
        },
        toggle_active: WlNewHotKeyAction {
            id: WL_TOGGLE_ACTIVE_ID,
            description: WL_TOGGLE_ACTIVE_DESCRIPTION.to_owned(),
            accelerator: DEFAULT_TOGGLE_ACTIVE.to_owned(),
        },
    }
}

/// The ids under which the desktop portal reports the two shortcuts. They
/// stay the same whatever keys the user binds.
pub fn wl_hotkey_ids() -> (ids: HotKeyConfig<u32>)
    ensures
        ids == (HotKeyConfig { trigger: WL_TRIGGER_ID, toggle_active: WL_TOGGLE_ACTIVE_ID }),
{
    HotKeyConfig { trigger: WL_TRIGGER_ID, toggle_active: WL_TOGGLE_ACTIVE_ID }
}

/// The descriptions to show after the desktop portal has listed `shortcuts`,
/// each an id with the description of its current binding: for each role the
/// description of the last entry with its id, or the empty text without one.
pub open spec fn portal_descriptions(shortcuts: Seq<(u32, String)>) -> HotKeyConfig<Seq<char>>
    decreases shortcuts.len(),
{
    if shortcuts.len() == 0 {
        HotKeyConfig { trigger: Seq::empty(), toggle_active: Seq::empty() }
    } else {
        let before = portal_descriptions(shortcuts.drop_last());
        let (id, description) = shortcuts.last();
        if id == WL_TRIGGER_ID {
            before.with(HotKeyAction::Trigger, description@)
        } else if id == WL_TOGGLE_ACTIVE_ID {
            before.with(HotKeyAction::ToggleActive, description@)
        } else {
            before
        }
    }
}

/// Gathers the descriptions to show from what the desktop portal lists.
pub fn wl_descriptions(shortcuts: &Vec<(u32, String)>) -> (d: HotKeyConfig<String>)
    ensures
        text_views(d) == portal_descriptions(shortcuts@),
{
    let mut d: HotKeyConfig<String> = HotKeyConfig::default();
    let mut i: usize = 0;
    while i < shortcuts.len()
        invariant
            i <= shortcuts.len(),
            text_views(d) == portal_descriptions(shortcuts@.take(i as int)),
        decreases shortcuts.len() - i,
    {
        let ghost seen = shortcuts@.take(i as int);
        let id = shortcuts[i].0;
        if id == WL_TRIGGER_ID {
            d.trigger = shortcuts[i].1.clone();
        } else if id == WL_TOGGLE_ACTIVE_ID {
            d.toggle_active = shortcuts[i].1.clone();
        }
        i = i + 1;
        proof {
            let now = shortcuts@.take(i as int);
            assert(now.drop_last() =~= seen);
            assert(now.last() == shortcuts@[i - 1]);
        }
    }
    assert(shortcuts@.take(shortcuts.len() as int) =~= shortcuts@);
    d
}

/// The two ways of capturing global hotkeys.
#[derive(Debug, Clone, Copy, PartialEq, Eq, Structural)]
pub enum HotkeyBackend {
    /// The hotkeys are registered with the windowing system; they can be rebound.
    Direct,
    /// The desktop portal owns the bindings; this program only watches them.
    Portal,
}

impl HotkeyBackend {
    /// Whether this backend takes new bindings from the program. Under the
    /// portal the user binds the keys in the system's settings, and requests
    /// to rebind have no addressee.
    pub fn can_rebind(self) -> (r: bool)
        ensures
            r == (self == HotkeyBackend::Direct),
    {
        match self {
            HotkeyBackend::Direct => true,
            HotkeyBackend::Portal => false,
        }
    }
}

/// Why a hotkey backend cannot go on.
#[derive(Debug, Clone, Copy, PartialEq, Eq, Structural)]
pub enum BackendFailure {
    /// The hotkey facility could not be set up.
    NoManager,
    /// The facility turned a registration down.
    RegistrationRejected,
    /// The source of hotkey events broke or came to an end.
    ReceiverClosed,
}

/// What a listener for hotkeys meets.
#[derive(Debug, Clone, Copy, PartialEq, Eq, Structural)]
pub enum ListenerEvent {
    /// A hotkey went down or came up.
    Edge { id: u32, state: HotKeyState },
    /// The backend cannot go on.
    Failure(BackendFailure),
}

/// Chooses the backend once, at start. Without a hotkey facility there is
/// none.
pub fn hotkeys(manager_created: bool, using_wayland: bool) -> (r: Result<
    HotkeyBackend,
    BackendFailure,
>)
    ensures
        r == if !manager_created {
            Err::<HotkeyBackend, BackendFailure>(BackendFailure::NoManager)
        } else if using_wayland {
            Ok::<HotkeyBackend, BackendFailure>(HotkeyBackend::Portal)
        } else {
            Ok::<HotkeyBackend, BackendFailure>(HotkeyBackend::Direct)
        },
{
    if !manager_created {
        Err(BackendFailure::NoManager)
    } else if using_wayland {
        Ok(HotkeyBackend::Portal)
    } else {
        Ok(HotkeyBackend::Direct)
    }
}

/// What a listener does with an event: whether the hotkeys are lost
/// afterwards, and the message that it sends. Until the hotkeys are lost, an
/// edge is routed by the ids that the roles are bound to at that moment, and
/// any failure sends the one message that says so. After that nothing is sent.
pub open spec fn listened(lost: bool, event: ListenerEvent, ids: HotKeyConfig<u32>) -> (
    bool,
    Option<Msg>,
) {
    if lost {
        (true, None)
    } else {
        match event {
            ListenerEvent::Edge { id, state } => (false, hotkey_msg(route(ids, id), state)),
            ListenerEvent::Failure(_) => (true, Some(Msg::GlobalShortcutsFail)),
        }
    }
}

/// Whether the hotkeys are lost after `events`, each with the ids that the
/// roles were bound to when it came.
pub open spec fn lost_after(events: Seq<(ListenerEvent, HotKeyConfig<u32>)>) -> bool
    decreases events.len(),
{
    if events.len() == 0 {
        false
    } else {
        listened(lost_after(events.drop_last()), events.last().0, events.last().1).0
    }
}

/// The messages that a listener sends for `events`, in order.
pub open spec fn stream_of(events: Seq<(ListenerEvent, HotKeyConfig<u32>)>) -> Seq<Msg>
    decreases events.len(),
{
    if events.len() == 0 {
        Seq::empty()
    } else {
        let before = stream_of(events.drop_last());
        match listened(lost_after(events.drop_last()), events.last().0, events.last().1).1 {
            Some(msg) => before.push(msg),
            None => before,
        }
    }
}

/// A listener for hotkeys: it passes edges on until the backend fails, and
/// says once that the hotkeys are lost.
#[derive(Debug, Clone, Copy, PartialEq, Eq, Structural)]
pub struct Listener {
    lost: bool,
}

impl View for Listener {
    type V = bool;

    closed spec fn view(&self) -> bool {
        self.lost
    }
}

impl Listener {
    /// A listener whose backend is in order.
    pub fn new() -> (listener: Listener)
        ensures
            !listener@,
    {
        Listener { lost: false }
    }

    /// Whether the hotkeys are lost.
    pub fn lost(&self) -> (lost: bool)
        ensures
            lost == self@,
    {
        self.lost
    }

    /// Takes in one event, with the ids that the roles are bound to at this
    /// moment, and gives the message to send to the core, if any.
    pub fn on_event(&mut self, event: ListenerEvent, ids: &HotKeyConfig<u32>) -> (msg: Option<Msg>)
        ensures
            (final(self)@, msg) == listened(old(self)@, event, *ids),
    {
        if self.lost {
            return None;
        }
        match event {
            ListenerEvent::Edge { id, state } => handle_hotkey_press(id, state, ids),
            ListenerEvent::Failure(_) => {
                self.lost = true;
                Some(Msg::GlobalShortcutsFail)
            },
        }
    }
}

/// A listener never ends in silence: the hotkeys are lost exactly if some
/// event was a failure, and exactly then the last message says so. That
/// message is sent once, and none follows it.
pub proof fn lemma_capability_lost_is_last(events: Seq<(ListenerEvent, HotKeyConfig<u32>)>)
    ensures
        lost_after(events) <==> exists|i: int|
            0 <= i < events.len() && #[trigger] events[i].0 is Failure,
        lost_after(events) <==> stream_of(events).len() > 0 && stream_of(events).last()
            == Msg::GlobalShortcutsFail,
        forall|i: int|
            0 <= i < stream_of(events).len() - 1 ==> #[trigger] stream_of(events)[i]
                != Msg::GlobalShortcutsFail,
    decreases events.len(),
{
    if events.len() > 0 {
        let front = events.drop_last();
        lemma_capability_lost_is_last(front);
        let (event, ids) = events.last();
        let before = stream_of(front);
        if lost_after(front) {
            let k = choose|k: int| 0 <= k < front.len() && #[trigger] front[k].0 is Failure;
            assert(events[k].0 is Failure);
        } else {
            assert forall|i: int| 0 <= i < front.len() implies !(#[trigger] events[i].0
                is Failure) by {
                assert(front[i].0 == events[i].0);
            }
            match event {
                ListenerEvent::Edge { id, state } => {
                    if hotkey_msg(route(ids, id), state) is Some {
                        assert(stream_of(events).last() != Msg::GlobalShortcutsFail);
                    }
                },
                ListenerEvent::Failure(_) => {
                    assert(events[events.len() - 1].0 is Failure);
                },
            }
        }
    }
}

/// The accelerator that was asked for is none.
#[derive(Debug, Clone, Copy, PartialEq, Eq, Structural)]
pub struct RebindFailure;

/// What the backend has to do for a rebinding that the registry accepted.
#[derive(Debug)]
pub struct Rebind {
    /// The binding that the role had; to be unregistered.
    pub unregister: HotkeyBinding,
    /// The binding that the role has now; to be registered.
    pub register: HotkeyBinding,
    /// The texts of both roles' bindings after the change; to be shown.
    pub descriptions: HotKeyConfig<String>,
    /// The configuration after the change; to be stored.
    pub config: Config,
}

/// Owner of the binding of each role under the direct backend.
#[derive(Debug)]
pub struct HotkeyRegistry {
    bindings: HotKeyConfig<HotkeyBinding>,
}

impl View for HotkeyRegistry {
    type V = HotKeyConfig<BindingView>;

    closed spec fn view(&self) -> HotKeyConfig<BindingView> {
        binding_views(self.bindings)
    }
}

impl HotkeyRegistry {
    /// A registry that holds `bindings`.
    pub fn new(bindings: HotKeyConfig<HotkeyBinding>) -> (registry: HotkeyRegistry)
        ensures
            registry@ == binding_views(bindings),
    {
        HotkeyRegistry { bindings }
    }

    /// The current bindings, for registration and display.
    pub fn bindings(&self) -> (bindings: &HotKeyConfig<HotkeyBinding>)
        ensures
            binding_views(*bindings) == self@,
    {
        &self.bindings
    }

    /// The ids that the roles are bound to at this moment.
    pub fn ids(&self) -> (ids: HotKeyConfig<u32>)
        ensures
            ids == binding_ids(self@),
    {
        HotKeyConfig { trigger: self.bindings.trigger.id(), toggle_active: self.bindings.toggle_active.id() }
    }

    /// The texts under which the current bindings are shown.
    pub fn descriptions(&self) -> (d: HotKeyConfig<String>)
        ensures
            text_views(d) == binding_descriptions(self@),
    {
        HotKeyConfig {
            trigger: self.bindings.trigger.description().to_owned(),
            toggle_active: self.bindings.toggle_active.description().to_owned(),
        }
    }

    /// The configuration that stands for the current bindings.
    pub fn config(&self) -> (config: Config)
        ensures
            config@ == stored_texts(self@),
    {
        let mut config = Config::default();
        config.store_hotkeys(&self.bindings);
        config
    }

    /// The role that an event with `id` belongs to right now, if any.
    pub fn resolve(&self, id: u32) -> (role: Option<HotKeyAction>)
        ensures
            role == route(binding_ids(self@), id),
    {
        if id == self.bindings.trigger.id() {
            Some(HotKeyAction::Trigger)
        } else if id == self.bindings.toggle_active.id() {
            Some(HotKeyAction::ToggleActive)
        } else {
            None
        }
    }

    /// The message for a backend event, by the bindings at this moment.
    pub fn dispatch(&self, id: u32, state: HotKeyState) -> (msg: Option<Msg>)
        ensures
            msg == hotkey_msg(route(binding_ids(self@), id), state),
    {
        let ids = self.ids();
        handle_hotkey_press(id, state, &ids)
    }

    /// Binds `role` to `new_accelerator`. If the text is no accelerator the
    /// registry stays as it is. Otherwise the role's binding is replaced as a
    /// whole, the other role's binding stays, and the result names what to
    /// unregister, what to register, what to show and what to store.
    pub fn rebind(&mut self, role: HotKeyAction, new_accelerator: &str) -> (r: Result<
        Rebind,
        RebindFailure,
    >)
        ensures
            match binding_of(new_accelerator@) {
                Some(binding) => {
                    &&& r matches Ok(change)
                    &&& change.unregister@ == old(self)@.of(role)
                    &&& change.register@ == binding
                    &&& text_views(change.descriptions) == binding_descriptions(final(self)@)
                    &&& change.config@ == stored_texts(final(self)@)
                    &&& final(self)@ == old(self)@.with(role, binding)
                },
                None => r is Err && final(self)@ == old(self)@,
            },
    {
        match HotkeyBinding::parse(new_accelerator) {
            Some(binding) => {
                let register = binding.clone();
                let unregister = self.bindings.replace(role, binding);
                Ok(
                    Rebind {
                        unregister,
                        register,
                        descriptions: self.descriptions(),
                        config: self.config(),
                    },
                )
            },
            None => Err(RebindFailure),
        }
    }
}

/// After `role` has been rebound to `binding`, an event that carries the
/// new id goes to that role. For the toggle this needs the new id to differ
/// from the trigger's, which is asked first.
pub proof fn lemma_rebind_routes_new_id(
    before: HotKeyConfig<BindingView>,
    role: HotKeyAction,
    binding: BindingView,
)
    requires
        role == HotKeyAction::ToggleActive ==> binding.id != before.trigger.id,
    ensures
        route(binding_ids(before.with(role, binding)), binding.id) == Some(role),
{
}

/// After `role` has been rebound to `binding`, an event that carries the id
/// that the role had before goes to no role and leads to no message. This
/// needs the old id to differ from the new one and from the other role's.
pub proof fn lemma_rebind_drops_old_id(
    before: HotKeyConfig<BindingView>,
    role: HotKeyAction,
    binding: BindingView,
    state: HotKeyState,
)
    requires
        before.of(role).id != binding.id,
        before.trigger.id != before.toggle_active.id,
    ensures
        route(binding_ids(before.with(role, binding)), before.of(role).id) is None,
        hotkey_msg(route(binding_ids(before.with(role, binding)), before.of(role).id), state)
            is None,
{
}

/// An event whose id no role is bound to leads to no message.
pub proof fn lemma_unbound_id_is_dropped(ids: HotKeyConfig<u32>, id: u32, state: HotKeyState)
    requires
        id != ids.trigger,
        id != ids.toggle_active,
    ensures
        hotkey_msg(route(ids, id), state) is None,
{
}

} // verus!
