use vstd::prelude::*;

use crate::target::Target;

verus! {

/// What releasing the handle will do in the launcher's current state.
#[derive(Debug, Clone, PartialEq, Eq)]
pub enum Action {
    /// The handle rests near the palm: releasing it does nothing.
    Nothing,
    /// The handle is pulled onto a command: releasing it launches that command.
    Command(String),
    /// The handle is pulled past every command: the line closes (derezzes) the objects
    /// it reaches, and releasing the handle launches nothing.
    Destroy,
}

/// The mathematical value of an [`Action`].
pub enum ActionView {
    Nothing,
    Command(Seq<char>),
    Destroy,
}

impl View for Action {
    type V = ActionView;

    open spec fn view(&self) -> ActionView {
        match self {
            Action::Nothing => ActionView::Nothing,
            Action::Command(c) => ActionView::Command(c@),
            Action::Destroy => ActionView::Destroy,
        }
    }
}

/// The texts of a list of commands.
pub open spec fn command_texts(commands: Seq<String>) -> Seq<Seq<char>> {
    commands.map_values(|c: String| c@)
}

/// The action selected when the handle is pulled `index` slots out from the palm:
/// slot 0 is the rest position, slots `1..=n` hold the `n` commands in order, and
/// every slot beyond them turns the line into one that closes what it reaches.
pub open spec fn action_for_slot(commands: Seq<Seq<char>>, index: nat) -> ActionView {
    if index == 0 {
        ActionView::Nothing
    } else if index > commands.len() {
        ActionView::Destroy
    } else {
        ActionView::Command(commands[index - 1])
    }
}

/// The shade of the line drawn from the palm to the handle.
#[derive(Debug, Clone, Copy, PartialEq, Eq, Structural)]
pub enum LineTint {
    /// A faint shade of the accent colour: at rest.
    Dim,
    /// A bright shade of the accent colour: a command is selected.
    Bright,
    /// Red: the line closes what it reaches.
    Alert,
}

/// What the launcher shows while its target is tracked.
#[derive(Debug, Clone, PartialEq, Eq)]
pub struct Scene {
    /// The shade of the line from the palm to the handle.
    pub tint: LineTint,
    /// The text shown beside the line: the selected command.
    pub label: Option<String>,
    /// Whether the element that closes the objects along the line is present.
    pub derezzer: bool,
}

/// The mathematical value of a [`Scene`].
pub struct SceneView {
    pub tint: LineTint,
    pub label: Option<Seq<char>>,
    pub derezzer: bool,
}

impl View for Scene {
    type V = SceneView;

    open spec fn view(&self) -> SceneView {
        SceneView {
            tint: self.tint,
            label: match self.label {
                Some(l) => Some(l@),
                None => None,
            },
            derezzer: self.derezzer,
        }
    }
}

/// The mathematical value of an optional [`Scene`].
pub open spec fn scene_view(s: Option<Scene>) -> Option<SceneView> {
    match s {
        Some(s) => Some(s@),
        None => None,
    }
}

/// The state of the launcher that its decisions depend on (the handle's pose
/// is held by the caller, which turns it into a slot index).
#[derive(Debug, Clone, PartialEq, Eq)]
pub struct Launcher {
    pub target: Target,
    pub state: Action,
    pub commands: Vec<String>,
    pub visible: bool,
}

/// The mathematical value of a [`Launcher`].
pub struct LauncherView {
    pub target: Target,
    pub state: ActionView,
    pub commands: Seq<Seq<char>>,
    pub visible: bool,
}

impl View for Launcher {
    type V = LauncherView;

    open spec fn view(&self) -> LauncherView {
        LauncherView {
            target: self.target,
            state: self.state@,
            commands: command_texts(self.commands@),
            visible: self.visible,
        }
    }
}

impl LauncherView {
    /// The launcher after the tracking state of its target changed to `is_tracked`.
    pub open spec fn after_tracking_change(self, is_tracked: bool) -> LauncherView {
        LauncherView { visible: is_tracked, state: ActionView::Nothing, ..self }
    }

    /// The launcher after a frame in which the handle stood in slot `index`.
    pub open spec fn after_frame(self, index: nat) -> LauncherView {
        LauncherView { state: action_for_slot(self.commands, index), ..self }
    }

    /// The launcher after the handle was released.
    pub open spec fn after_release(self) -> LauncherView {
        LauncherView { state: ActionView::Nothing, ..self }
    }

    /// What the launcher shows: nothing while its target is untracked; otherwise the
    /// line, tinted by the selected action, the selected command's text, and the
    /// element that closes the objects along the line when the handle is pulled past
    /// every command.
    pub open spec fn scene(self) -> Option<SceneView> {
        if !self.visible {
            None
        } else {
            Some(
                match self.state {
                    ActionView::Nothing => SceneView {
                        tint: LineTint::Dim,
                        label: None,
                        derezzer: false,
                    },
                    ActionView::Command(c) => SceneView {
                        tint: LineTint::Bright,
                        label: Some(c),
                        derezzer: false,
                    },
                    ActionView::Destroy => SceneView {
                        tint: LineTint::Alert,
                        label: None,
                        derezzer: true,
                    },
                },
            )
        }
    }

    /// The command that releasing the handle launches, if any.
    pub open spec fn launched_on_release(self) -> Option<Seq<char>> {
        match self.state {
            ActionView::Command(c) => Some(c),
            _ => None,
        }
    }
}

impl Launcher {
    /// A launcher on the left hand with no commands, at rest and hidden.
    pub fn new() -> (l: Launcher)
        ensures
            l@.target == Target::HandLeft,
            l@.state == ActionView::Nothing,
            l@.commands == Seq::<Seq<char>>::empty(),
            !l@.visible,
    {
        Launcher {
            target: Target::HandLeft,
            state: Action::Nothing,
            commands: Vec::new(),
            visible: false,
        }
    }

    /// Takes the launch arguments (those after the program's name): the first names
    /// the target and the rest are the commands, in order. The first argument must be
    /// present and name a target.
    pub fn initial_state_update(&mut self, args: Vec<String>)
        requires
            args@.len() > 0,
            Target::from_arg_name(args@[0]@) is Some,
        ensures
            Target::from_arg_name(args@[0]@) == Some(final(self)@.target),
            final(self)@.commands == command_texts(args@).drop_first(),
            final(self)@.state == old(self)@.state,
            final(self)@.visible == old(self)@.visible,
    {
        let mut args = args;
        let ghost all = args@;
        let first = args.remove(0);
        match Target::parse(first.as_str()) {
            Ok(t) => {
                self.target = t;
                self.commands = args;
                assert(command_texts(all).drop_first() =~= command_texts(args@));
            },
            Err(_) => {
                // The first argument names a target, so it is never refused.
            },
        }
    }

    /// The tracking state of the target changed: the launcher is shown exactly while
    /// the target is tracked, and any selection is dropped.
    pub fn tracked_changed(&mut self, is_tracked: bool)
        ensures
            final(self)@ == old(self)@.after_tracking_change(is_tracked),
    {
        self.visible = is_tracked;
        self.state = Action::Nothing;
    }

    /// A frame in which the handle stood in slot `index` selects the action of that slot.
    pub fn on_frame(&mut self, index: usize)
        ensures
            final(self)@ == old(self)@.after_frame(index as nat),
    {
        let action = if index == 0 {
            Action::Nothing
        } else if index > self.commands.len() {
            Action::Destroy
        } else {
            Action::Command(self.commands[index - 1].clone())
        };
        self.state = action;
    }

    /// The handle was released: returns the command to launch, if one was selected,
    /// and drops the selection.
    pub fn grab_stop(&mut self) -> (launch: Option<String>)
        ensures
            final(self)@ == old(self)@.after_release(),
            match launch {
                Some(c) => old(self)@.launched_on_release() == Some(c@),
                None => old(self)@.launched_on_release() is None,
            },
    {
        let launch = match &self.state {
            Action::Command(c) => Some(c.clone()),
            _ => None,
        };
        self.state = Action::Nothing;
        launch
    }
    /// What the launcher shows in its current state.
    pub fn scene(&self) -> (res: Option<Scene>)
        ensures
            scene_view(res) == self@.scene(),
    {
        if !self.visible {
            return None;
        }
        let scene = match &self.state {
            Action::Nothing => Scene { tint: LineTint::Dim, label: None, derezzer: false },
            Action::Command(c) => Scene {
                tint: LineTint::Bright,
                label: Some(c.clone()),
                derezzer: false,
            },
            Action::Destroy => Scene { tint: LineTint::Alert, label: None, derezzer: true },
        };
        Some(scene)
    }
}

/// Releasing the handle of a shown launcher launches exactly the command whose text
/// is shown, and nothing when no text is shown.
pub proof fn lemma_release_launches_shown_command(l: LauncherView)
    requires
        l.visible,
    ensures
        l.scene() matches Some(s) && s.label == l.launched_on_release(),
{
}

/// A release that follows a frame launches only one of the launcher's commands: the
/// one in the slot where the handle stood.
pub proof fn lemma_release_after_frame_launches_listed_command(l: LauncherView, index: nat)
    ensures
        match l.after_frame(index).launched_on_release() {
            Some(c) => 1 <= index <= l.commands.len() && c == l.commands[index - 1]
                && l.commands.contains(c),
            None => index == 0 || index > l.commands.len(),
        },
{
    if 1 <= index <= l.commands.len() {
        assert(l.commands.contains(l.commands[index - 1]));
    }
}

/// A release right after the target's tracking changed launches nothing.
pub proof fn lemma_release_after_tracking_change_launches_nothing(l: LauncherView, is_tracked: bool)
    ensures
        l.after_tracking_change(is_tracked).launched_on_release() is None,
        l.after_tracking_change(is_tracked).after_release() == l.after_tracking_change(is_tracked),
{
}

/// Once the handle is released the launcher is at rest: a shown launcher draws the
/// dim line with no text and closes nothing, and a second release launches nothing.
pub proof fn lemma_release_returns_to_rest(l: LauncherView)
    ensures
        l.after_release().launched_on_release() is None,
        l.after_release().after_release() == l.after_release(),
        l.visible ==> l.after_release().scene() == Some(
            SceneView { tint: LineTint::Dim, label: None, derezzer: false },
        ),
{
}

/// The zone that slot `index` falls in: 0 at rest, `k` on the `k`-th command, and
/// `n + 1` past all `n` commands.
pub open spec fn zone_of_slot(commands: Seq<Seq<char>>, index: nat) -> nat {
    if index > commands.len() {
        (commands.len() + 1) as nat
    } else {
        index
    }
}

/// Pulling the handle farther out never moves back through the command list: a
/// farther slot falls in the same zone or a later one, each slot selects the action of
/// its zone, and rest comes before every command, which all come before destroying.
pub proof fn lemma_farther_pull_never_moves_back(commands: Seq<Seq<char>>, i: nat, j: nat)
    requires
        i <= j,
    ensures
        zone_of_slot(commands, i) <= zone_of_slot(commands, j),
        action_for_slot(commands, i) == action_for_slot(commands, zone_of_slot(commands, i)),
        action_for_slot(commands, j) == action_for_slot(commands, zone_of_slot(commands, j)),
        action_for_slot(commands, j) is Nothing ==> action_for_slot(commands, i) is Nothing,
        action_for_slot(commands, i) is Destroy ==> action_for_slot(commands, j) is Destroy,
        action_for_slot(commands, i) is Command && action_for_slot(commands, j) is Command
            ==> 1 <= i <= j <= commands.len(),
{
}

/// A frame selects the action of the handle's slot for every launcher, whatever its
/// target and whether it is shown: slot 0 rests, slot `k` in `1..=n` selects the
/// `k`-th command, and every slot past the `n` commands destroys; nothing but the
/// selection changes.
pub proof fn lemma_frame_selects_slot_action(l: LauncherView, index: nat)
    ensures
        index == 0 ==> l.after_frame(index).state == ActionView::Nothing,
        1 <= index <= l.commands.len() ==> l.after_frame(index).state == ActionView::Command(
            l.commands[index - 1],
        ),
        index > l.commands.len() ==> l.after_frame(index).state == ActionView::Destroy,
        l.after_frame(index).target == l.target,
        l.after_frame(index).commands == l.commands,
        l.after_frame(index).visible == l.visible,
{
}

/// A launcher is drawn exactly while it is shown, and then, for every target: the line
/// is red and the derezzer present exactly when destroying is selected, the line is
/// bright and carries the command's text exactly when a command is selected, and the
/// line is dim with no text and no derezzer at rest.
pub proof fn lemma_scene_follows_selection(l: LauncherView)
    ensures
        !l.visible <==> l.scene() is None,
        l.visible ==> (l.scene() matches Some(s) && {
            &&& s.derezzer == (l.state is Destroy)
            &&& (s.tint == LineTint::Alert) == (l.state is Destroy)
            &&& (s.tint == LineTint::Bright) == (l.state is Command)
            &&& (s.tint == LineTint::Dim) == (l.state is Nothing)
            &&& match l.state {
                ActionView::Command(c) => s.label == Some(c),
                _ => s.label is None,
            }
        }),
{
}

/// After a tracking change the launcher is shown exactly when its target is tracked,
/// at rest, with its target and commands kept; losing tracking hides it.
pub proof fn lemma_tracking_change_shows_exactly_when_tracked(l: LauncherView, is_tracked: bool)
    ensures
        l.after_tracking_change(is_tracked).visible == is_tracked,
        l.after_tracking_change(is_tracked).state == ActionView::Nothing,
        l.after_tracking_change(is_tracked).target == l.target,
        l.after_tracking_change(is_tracked).commands == l.commands,
        !is_tracked ==> l.after_tracking_change(is_tracked).scene() is None,
{
}

/// Releasing the handle changes only the selection: the target, the commands and the
/// visibility are kept, so pulling to the same slot again selects, and a second release
/// launches, the same command as before.
pub proof fn lemma_release_keeps_commands(l: LauncherView, index: nat)
    ensures
        l.after_release().state == ActionView::Nothing,
        l.after_release().target == l.target,
        l.after_release().commands == l.commands,
        l.after_release().visible == l.visible,
        l.after_frame(index).after_release().after_frame(index).launched_on_release()
            == l.after_frame(index).launched_on_release(),
{
}

} // verus!
