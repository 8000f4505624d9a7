use vstd::prelude::*;

use crate::records::{action_record_spec, ActionRecord, ActionRecordView, ModAction};
use crate::text::{decimal, tag_text, text_is, u64_text, user_tag};

verus! {

/// The role given to muted members.
pub const MUTE_ROLE_ID: u64 = 704641046465740851;

/// How long, in seconds, the session waits for a button press.
pub const BUTTON_WAIT_SECS: u64 = 60;

/// How long, in seconds, the session waits for a typed reason.
pub const REASON_WAIT_SECS: u64 = 15;

/// The look of a message button.
#[derive(Clone, Copy, Debug, PartialEq, Eq, Structural)]
pub enum ButtonStyle {
    Primary,
    Secondary,
    Success,
    Danger,
}

/// A button attached to a message.
pub struct Button {
    pub style: ButtonStyle,
    pub label: String,
    pub custom_id: String,
}

pub struct ButtonView {
    pub style: ButtonStyle,
    pub label: Seq<char>,
    pub custom_id: Seq<char>,
}

impl View for Button {
    type V = ButtonView;

    open spec fn view(&self) -> ButtonView {
        ButtonView { style: self.style, label: self.label@, custom_id: self.custom_id@ }
    }
}

/// What happens to the buttons of the message an interaction answers.
pub enum Components {
    /// The reply sets no buttons.
    Unchanged,
    /// The reply shows these buttons, in one row.
    Buttons(Vec<Button>),
    /// The reply removes all buttons.
    Cleared,
}

pub enum ComponentsView {
    Unchanged,
    Buttons(Seq<ButtonView>),
    Cleared,
}

impl View for Components {
    type V = ComponentsView;

    open spec fn view(&self) -> ComponentsView {
        match self {
            Components::Unchanged => ComponentsView::Unchanged,
            Components::Buttons(b) => ComponentsView::Buttons(b@.map_values(|x: Button| x@)),
            Components::Cleared => ComponentsView::Cleared,
        }
    }
}

/// How an interaction is answered.
#[derive(Clone, Copy, Debug, PartialEq, Eq, Structural)]
pub enum ResponseKind {
    /// A new message in the channel.
    NewMessage,
    /// An edit of the message whose button was pressed.
    UpdateMessage,
}

/// How the outcome of a mute reaches the moderator.
#[derive(Clone, Copy, Debug, PartialEq, Eq, Structural)]
pub enum Delivery {
    /// A follow-up message to the last interaction (after a typed reason).
    FollowUp,
    /// An edit of the prompt that also removes its buttons.
    UpdateAndClear,
}

/// A guild member as fetched: enough to address and describe them.
pub struct MemberInfo {
    pub user_id: u64,
    pub guild_id: u64,
    pub name: String,
    pub discriminator: u16,
}

pub struct MemberInfoView {
    pub user_id: u64,
    pub guild_id: u64,
    pub name: Seq<char>,
    pub discriminator: u16,
}

impl View for MemberInfo {
    type V = MemberInfoView;

    open spec fn view(&self) -> MemberInfoView {
        MemberInfoView {
            user_id: self.user_id,
            guild_id: self.guild_id,
            name: self.name@,
            discriminator: self.discriminator,
        }
    }
}

/// The member a moderation session is about.
pub struct Target {
    pub user_id: u64,
    pub guild_id: u64,
    pub tag: String,
}

pub struct TargetView {
    pub user_id: u64,
    pub guild_id: u64,
    pub tag: Seq<char>,
}

impl View for Target {
    type V = TargetView;

    open spec fn view(&self) -> TargetView {
        TargetView { user_id: self.user_id, guild_id: self.guild_id, tag: self.tag@ }
    }
}

/// The target described by a fetched member.
pub open spec fn target_of(m: MemberInfoView) -> TargetView {
    TargetView { user_id: m.user_id, guild_id: m.guild_id, tag: tag_text(m.name, m.discriminator) }
}

/// What waiting for a button press gave.
pub enum Answer {
    /// Nobody pressed a button in time.
    TimedOut,
    /// The button with this custom id was pressed.
    Component(String),
    /// An interaction came that carries no button data.
    Unsupported,
}

pub enum AnswerView {
    TimedOut,
    Component(Seq<char>),
    Unsupported,
}

impl View for Answer {
    type V = AnswerView;

    open spec fn view(&self) -> AnswerView {
        match self {
            Answer::TimedOut => AnswerView::TimedOut,
            Answer::Component(id) => AnswerView::Component(id@),
            Answer::Unsupported => AnswerView::Unsupported,
        }
    }
}

/// Where a moderation session stands. Each state but `Start` and `Finished`
/// waits for the outcome of the action the session last asked for.
pub enum SessionState {
    Start,
    ReplyingInDm,
    AwaitingMention { issuer: u64, guild: Option<u64> },
    AwaitingTarget { issuer: u64 },
    AwaitingMember { issuer: u64 },
    SendingMenu { issuer: u64, target: Target },
    AwaitingMenuChoice { issuer: u64, target: Target },
    SendingDurationPrompt { issuer: u64, target: Target },
    AwaitingDuration { issuer: u64, target: Target },
    SendingReasonPrompt { issuer: u64, target: Target },
    AwaitingReasonChoice { issuer: u64, target: Target },
    SendingReasonRequest { issuer: u64, target: Target },
    AwaitingReasonText { issuer: u64, target: Target },
    Muting { issuer: u64, target: Target, reason: String, delivery: Delivery },
    RecordingMute { target: Target, delivery: Delivery },
    RecordingLogView { target: Target },
    Delivering,
    Closing,
    Finished,
}

pub enum StateView {
    Start,
    ReplyingInDm,
    AwaitingMention { issuer: u64, guild: Option<u64> },
    AwaitingTarget { issuer: u64 },
    AwaitingMember { issuer: u64 },
    SendingMenu { issuer: u64, target: TargetView },
    AwaitingMenuChoice { issuer: u64, target: TargetView },
    SendingDurationPrompt { issuer: u64, target: TargetView },
    AwaitingDuration { issuer: u64, target: TargetView },
    SendingReasonPrompt { issuer: u64, target: TargetView },
    AwaitingReasonChoice { issuer: u64, target: TargetView },
    SendingReasonRequest { issuer: u64, target: TargetView },
    AwaitingReasonText { issuer: u64, target: TargetView },
    Muting { issuer: u64, target: TargetView, reason: Seq<char>, delivery: Delivery },
    RecordingMute { target: TargetView, delivery: Delivery },
    RecordingLogView { target: TargetView },
    Delivering,
    Closing,
    Finished,
}

impl View for SessionState {
    type V = StateView;

    open spec fn view(&self) -> StateView {
        match self {
            SessionState::Start => StateView::Start,
            SessionState::ReplyingInDm => StateView::ReplyingInDm,
            SessionState::AwaitingMention { issuer, guild } => StateView::AwaitingMention {
                issuer: *issuer,
                guild: *guild,
            },
            SessionState::AwaitingTarget { issuer } => StateView::AwaitingTarget { issuer: *issuer },
            SessionState::AwaitingMember { issuer } => StateView::AwaitingMember { issuer: *issuer },
            SessionState::SendingMenu { issuer, target } => StateView::SendingMenu {
                issuer: *issuer,
                target: target@,
            },
            SessionState::AwaitingMenuChoice { issuer, target } => StateView::AwaitingMenuChoice {
                issuer: *issuer,
                target: target@,
            },
            SessionState::SendingDurationPrompt { issuer, target } => StateView::SendingDurationPrompt {
                issuer: *issuer,
                target: target@,
            },
            SessionState::AwaitingDuration { issuer, target } => StateView::AwaitingDuration {
                issuer: *issuer,
                target: target@,
            },
            SessionState::SendingReasonPrompt { issuer, target } => StateView::SendingReasonPrompt {
                issuer: *issuer,
                target: target@,
            },
            SessionState::AwaitingReasonChoice { issuer, target } => StateView::AwaitingReasonChoice {
                issuer: *issuer,
                target: target@,
            },
            SessionState::SendingReasonRequest { issuer, target } => StateView::SendingReasonRequest {
                issuer: *issuer,
                target: target@,
            },
            SessionState::AwaitingReasonText { issuer, target } => StateView::AwaitingReasonText {
                issuer: *issuer,
                target: target@,
            },
            SessionState::Muting { issuer, target, reason, delivery } => StateView::Muting {
                issuer: *issuer,
                target: target@,
                reason: reason@,
                delivery: *delivery,
            },
            SessionState::RecordingMute { target, delivery } => StateView::RecordingMute {
                target: target@,
                delivery: *delivery,
            },
            SessionState::RecordingLogView { target } => StateView::RecordingLogView { target: target@ },
            SessionState::Delivering => StateView::Delivering,
            SessionState::Closing => StateView::Closing,
            SessionState::Finished => StateView::Finished,
        }
    }
}

/// The outcome of the action the session last asked for.
pub enum SessionEvent {
    /// The command was invoked: in a private channel or not, by `issuer`, from
    /// the guild `guild` if the message names one.
    Invoked { is_private: bool, issuer: u64, guild: Option<u64> },
    /// The first argument, or `None` when it could not be read.
    MentionRead(Option<String>),
    /// The user the argument names, if any.
    TargetResolved(Option<u64>),
    /// The fetched guild member, or `None` when fetching failed.
    MemberFetched(Option<MemberInfo>),
    /// Whether a message or response was sent.
    Sent(bool),
    /// What waiting for a button press gave.
    Answered(Answer),
    /// The reason the moderator typed, or `None` when none came in time.
    ReasonTyped(Option<String>),
    /// Whether the mute role was added, with the error's text when not.
    RoleAdded(Result<(), String>),
    /// The action record was written.
    Recorded,
}

pub enum EventView {
    Invoked { is_private: bool, issuer: u64, guild: Option<u64> },
    MentionRead(Option<Seq<char>>),
    TargetResolved(Option<u64>),
    MemberFetched(Option<MemberInfoView>),
    Sent(bool),
    Answered(AnswerView),
    ReasonTyped(Option<Seq<char>>),
    RoleAdded(Result<(), Seq<char>>),
    Recorded,
}

impl View for SessionEvent {
    type V = EventView;

    open spec fn view(&self) -> EventView {
        match self {
            SessionEvent::Invoked { is_private, issuer, guild } => EventView::Invoked {
                is_private: *is_private,
                issuer: *issuer,
                guild: *guild,
            },
            SessionEvent::MentionRead(m) => EventView::MentionRead(
                match m {
                    Some(s) => Some(s@),
                    None => None,
                },
            ),
            SessionEvent::TargetResolved(u) => EventView::TargetResolved(*u),
            SessionEvent::MemberFetched(m) => EventView::MemberFetched(
                match m {
                    Some(x) => Some(x@),
                    None => None,
                },
            ),
            SessionEvent::Sent(ok) => EventView::Sent(*ok),
            SessionEvent::Answered(a) => EventView::Answered(a@),
            SessionEvent::ReasonTyped(r) => EventView::ReasonTyped(
                match r {
                    Some(s) => Some(s@),
                    None => None,
                },
            ),
            SessionEvent::RoleAdded(r) => EventView::RoleAdded(
                match r {
                    Ok(()) => Ok(()),
                    Err(e) => Err(e@),
                },
            ),
            SessionEvent::Recorded => EventView::Recorded,
        }
    }
}

/// What the session asks the caller to do next.
pub enum SessionAction {
    /// Reply to the command message with this text.
    ReplyInChannel(String),
    /// Read the first argument, quoted or not.
    ReadMention,
    /// Find the member of `guild` that `mention` names.
    ResolveTarget { mention: String, guild: u64 },
    /// Fetch the guild member with this user id.
    FetchMember { user_id: u64 },
    /// Send this message with these buttons to the command's channel.
    SendMenu { content: String, buttons: Vec<Button> },
    /// Wait this long for `author` to press a button of the menu message.
    AwaitComponent { author: u64, secs: u64 },
    /// Answer the last interaction.
    Respond { kind: ResponseKind, content: String, components: Components },
    /// Send a follow-up message to the last interaction.
    FollowUp(String),
    /// Wait this long for `author` to type a message in the channel.
    AwaitReasonText { author: u64, secs: u64 },
    /// Give the target the role with this id.
    AddRole { role_id: u64 },
    /// Write this record to the action log.
    Record(ActionRecord),
    /// The command is over; with `error`, it fails with the error of the last action.
    Finish { error: bool },
    /// The command cannot go on: a value it relies on is missing.
    Abort,
}

pub enum ActionView {
    ReplyInChannel(Seq<char>),
    ReadMention,
    ResolveTarget { mention: Seq<char>, guild: u64 },
    FetchMember { user_id: u64 },
    SendMenu { content: Seq<char>, buttons: Seq<ButtonView> },
    AwaitComponent { author: u64, secs: u64 },
    Respond { kind: ResponseKind, content: Seq<char>, components: ComponentsView },
    FollowUp(Seq<char>),
    AwaitReasonText { author: u64, secs: u64 },
    AddRole { role_id: u64 },
    Record(ActionRecordView),
    Finish { error: bool },
    Abort,
}

impl View for SessionAction {
    type V = ActionView;

    open spec fn view(&self) -> ActionView {
        match self {
            SessionAction::ReplyInChannel(s) => ActionView::ReplyInChannel(s@),
            SessionAction::ReadMention => ActionView::ReadMention,
            SessionAction::ResolveTarget { mention, guild } => ActionView::ResolveTarget {
                mention: mention@,
                guild: *guild,
            },
            SessionAction::FetchMember { user_id } => ActionView::FetchMember { user_id: *user_id },
            SessionAction::SendMenu { content, buttons } => ActionView::SendMenu {
                content: content@,
                buttons: buttons@.map_values(|b: Button| b@),
            },
            SessionAction::AwaitComponent { author, secs } => ActionView::AwaitComponent {
                author: *author,
                secs: *secs,
            },
            SessionAction::Respond { kind, content, components } => ActionView::Respond {
                kind: *kind,
                content: content@,
                components: components@,
            },
            SessionAction::FollowUp(s) => ActionView::FollowUp(s@),
            SessionAction::AwaitReasonText { author, secs } => ActionView::AwaitReasonText {
                author: *author,
                secs: *secs,
            },
            SessionAction::AddRole { role_id } => ActionView::AddRole { role_id: *role_id },
            SessionAction::Record(r) => ActionView::Record(r@),
            SessionAction::Finish { error } => ActionView::Finish { error: *error },
            SessionAction::Abort => ActionView::Abort,
        }
    }
}

// ---------------------------------------------------------------------------
// Texts and buttons

/// The refusal sent when the command is used in a private channel.
pub open spec fn dm_refusal() -> Seq<char> {
    "You can't kick anyone in private messages!"@
}

/// How a target is named in messages: its tag and id, each in code marks.
pub open spec fn target_mention(t: TargetView) -> Seq<char> {
    "`"@ + t.tag + "` (`"@ + decimal(t.user_id as nat) + "`)"@
}

/// The question shown above the menu of actions.
pub open spec fn menu_prompt(t: TargetView) -> Seq<char> {
    "What would you like to do to "@ + target_mention(t) + "?"@
}

/// A message about the target: `User`, the target, and what became of them.
pub open spec fn target_notice(t: TargetView, outcome: Seq<char>) -> Seq<char> {
    "User "@ + target_mention(t) + " "@ + outcome
}

pub open spec fn kicked_outcome() -> Seq<char> {
    "has been kicked."@
}

pub open spec fn banned_outcome() -> Seq<char> {
    "has been banned."@
}

pub open spec fn muted_outcome() -> Seq<char> {
    "has been muted."@
}

/// The outcome told after a moderator views a member's logs. The wording is
/// neutral on purpose: this reply replaces an offensive slur, which this library
/// does not send. The reply follows the insert of
/// the log-view record, which PostgreSQL refuses (see `ModAction::insert_sql`),
/// so in practice the command stops before sending it.
pub open spec fn logs_viewed_outcome() -> Seq<char> {
    "has had their logs viewed."@
}

/// The outcome told when adding the mute role failed with `error`.
pub open spec fn mute_failed_outcome(error: Seq<char>) -> Seq<char> {
    "could not be muted! Might be a lack of permissions or this role doesn't exist.\n**"@ + error
        + "**"@
}

pub open spec fn duration_prompt() -> Seq<char> {
    "How long would you like to mute for?"@
}

pub open spec fn reason_prompt() -> Seq<char> {
    "Would you like to provide a reason?"@
}

pub open spec fn reason_request() -> Seq<char> {
    "Type your reason."@
}

/// The reason recorded when the moderator gives none.
pub open spec fn no_reason() -> Seq<char> {
    "None"@
}

pub open spec fn button_spec(style: ButtonStyle, label: Seq<char>, custom_id: Seq<char>) -> ButtonView {
    ButtonView { style, label, custom_id }
}

/// The menu of actions on the target.
pub open spec fn menu_buttons() -> Seq<ButtonView> {
    seq![
        button_spec(ButtonStyle::Primary, "Mute"@, "btn-mute"@),
        button_spec(ButtonStyle::Secondary, "Kick"@, "btn-kick"@),
        button_spec(ButtonStyle::Danger, "Ban"@, "btn-ban"@),
        button_spec(ButtonStyle::Success, "View Logs"@, "btn-logs"@),
    ]
}

/// The choice of mute duration.
pub open spec fn duration_buttons() -> Seq<ButtonView> {
    seq![
        button_spec(ButtonStyle::Danger, "Forever"@, "forever"@),
        button_spec(ButtonStyle::Primary, "Custom"@, "custom"@),
    ]
}

/// The choice of giving a reason.
pub open spec fn reason_buttons() -> Seq<ButtonView> {
    seq![
        button_spec(ButtonStyle::Primary, "Yes"@, "yes"@),
        button_spec(ButtonStyle::Primary, "No"@, "no"@),
    ]
}

/// How a message about a mute reaches the moderator.
pub open spec fn deliver(delivery: Delivery, text: Seq<char>) -> ActionView {
    match delivery {
        Delivery::FollowUp => ActionView::FollowUp(text),
        Delivery::UpdateAndClear => ActionView::Respond {
            kind: ResponseKind::UpdateMessage,
            content: text,
            components: ComponentsView::Cleared,
        },
    }
}

/// The answer to an event that the state does not wait for.
pub open spec fn out_of_turn() -> (StateView, ActionView) {
    (StateView::Finished, ActionView::Abort)
}

/// Ends the command without error.
pub open spec fn done() -> (StateView, ActionView) {
    (StateView::Finished, ActionView::Finish { error: false })
}

/// One step of the moderation command: the next state and the next action, given
/// the state and the outcome of the last action.
pub open spec fn session_step(s: StateView, e: EventView) -> (StateView, ActionView) {
    match s {
        StateView::Start => match e {
            EventView::Invoked { is_private, issuer, guild } => if is_private {
                (StateView::ReplyingInDm, ActionView::ReplyInChannel(dm_refusal()))
            } else {
                (StateView::AwaitingMention { issuer, guild }, ActionView::ReadMention)
            },
            _ => out_of_turn(),
        },
        StateView::ReplyingInDm => match e {
            EventView::Sent(ok) => (StateView::Finished, ActionView::Finish { error: !ok }),
            _ => out_of_turn(),
        },
        StateView::AwaitingMention { issuer, guild } => match e {
            EventView::MentionRead(None) => (StateView::Finished, ActionView::Finish { error: true }),
            EventView::MentionRead(Some(mention)) => match guild {
                Some(g) => (
                    StateView::AwaitingTarget { issuer },
                    ActionView::ResolveTarget { mention, guild: g },
                ),
                None => (StateView::Finished, ActionView::Abort),
            },
            _ => out_of_turn(),
        },
        StateView::AwaitingTarget { issuer } => match e {
            EventView::TargetResolved(Some(u)) => (
                StateView::AwaitingMember { issuer },
                ActionView::FetchMember { user_id: u },
            ),
            EventView::TargetResolved(None) => (StateView::Finished, ActionView::Abort),
            _ => out_of_turn(),
        },
        StateView::AwaitingMember { issuer } => match e {
            EventView::MemberFetched(Some(m)) => (
                StateView::SendingMenu { issuer, target: target_of(m) },
                ActionView::SendMenu { content: menu_prompt(target_of(m)), buttons: menu_buttons() },
            ),
            EventView::MemberFetched(None) => (StateView::Finished, ActionView::Abort),
            _ => out_of_turn(),
        },
        StateView::SendingMenu { issuer, target } => match e {
            EventView::Sent(true) => (
                StateView::AwaitingMenuChoice { issuer, target },
                ActionView::AwaitComponent { author: issuer, secs: BUTTON_WAIT_SECS },
            ),
            EventView::Sent(false) => (StateView::Finished, ActionView::Finish { error: true }),
            _ => out_of_turn(),
        },
        StateView::AwaitingMenuChoice { issuer, target } => match e {
            EventView::Answered(AnswerView::Component(id)) => if id == "btn-mute"@ {
                (
                    StateView::SendingDurationPrompt { issuer, target },
                    ActionView::Respond {
                        kind: ResponseKind::UpdateMessage,
                        content: duration_prompt(),
                        components: ComponentsView::Buttons(duration_buttons()),
                    },
                )
            } else if id == "btn-kick"@ {
                (
                    StateView::Closing,
                    ActionView::Respond {
                        kind: ResponseKind::NewMessage,
                        content: target_notice(target, kicked_outcome()),
                        components: ComponentsView::Unchanged,
                    },
                )
            } else if id == "btn-ban"@ {
                (
                    StateView::Closing,
                    ActionView::Respond {
                        kind: ResponseKind::NewMessage,
                        content: target_notice(target, banned_outcome()),
                        components: ComponentsView::Unchanged,
                    },
                )
            } else if id == "btn-logs"@ {
                (
                    StateView::RecordingLogView { target },
                    ActionView::Record(
                        action_record_spec(
                            ModAction::ViewLogs,
                            issuer,
                            target.user_id,
                            no_reason(),
                            target.guild_id,
                        ),
                    ),
                )
            } else {
                done()
            },
            EventView::Answered(_) => done(),
            _ => out_of_turn(),
        },
        StateView::SendingDurationPrompt { issuer, target } => match e {
            EventView::Sent(true) => (
                StateView::AwaitingDuration { issuer, target },
                ActionView::AwaitComponent { author: issuer, secs: BUTTON_WAIT_SECS },
            ),
            EventView::Sent(false) => (StateView::Finished, ActionView::Abort),
            _ => out_of_turn(),
        },
        StateView::AwaitingDuration { issuer, target } => match e {
            EventView::Answered(AnswerView::Component(id)) => if id == "forever"@ {
                (
                    StateView::SendingReasonPrompt { issuer, target },
                    ActionView::Respond {
                        kind: ResponseKind::UpdateMessage,
                        content: reason_prompt(),
                        components: ComponentsView::Buttons(reason_buttons()),
                    },
                )
            } else {
                done()
            },
            EventView::Answered(_) => done(),
            _ => out_of_turn(),
        },
        StateView::SendingReasonPrompt { issuer, target } => match e {
            EventView::Sent(true) => (
                StateView::AwaitingReasonChoice { issuer, target },
                ActionView::AwaitComponent { author: issuer, secs: BUTTON_WAIT_SECS },
            ),
            EventView::Sent(false) => (StateView::Finished, ActionView::Abort),
            _ => out_of_turn(),
        },
        StateView::AwaitingReasonChoice { issuer, target } => match e {
            EventView::Answered(AnswerView::Component(id)) => if id == "yes"@ {
                (
                    StateView::SendingReasonRequest { issuer, target },
                    ActionView::Respond {
                        kind: ResponseKind::UpdateMessage,
                        content: reason_request(),
                        components: ComponentsView::Cleared,
                    },
                )
            } else if id == "no"@ {
                (
                    StateView::Muting {
                        issuer,
                        target,
                        reason: no_reason(),
                        delivery: Delivery::UpdateAndClear,
                    },
                    ActionView::AddRole { role_id: MUTE_ROLE_ID },
                )
            } else {
                done()
            },
            EventView::Answered(_) => done(),
            _ => out_of_turn(),
        },
        StateView::SendingReasonRequest { issuer, target } => match e {
            EventView::Sent(_) => (
                StateView::AwaitingReasonText { issuer, target },
                ActionView::AwaitReasonText { author: issuer, secs: REASON_WAIT_SECS },
            ),
            _ => out_of_turn(),
        },
        StateView::AwaitingReasonText { issuer, target } => match e {
            EventView::ReasonTyped(Some(reason)) => (
                StateView::Muting { issuer, target, reason, delivery: Delivery::FollowUp },
                ActionView::AddRole { role_id: MUTE_ROLE_ID },
            ),
            EventView::ReasonTyped(None) => done(),
            _ => out_of_turn(),
        },
        StateView::Muting { issuer, target, reason, delivery } => match e {
            EventView::RoleAdded(Ok(())) => (
                StateView::RecordingMute { target, delivery },
                ActionView::Record(
                    action_record_spec(ModAction::Mute, issuer, target.user_id, reason, target.guild_id),
                ),
            ),
            EventView::RoleAdded(Err(error)) => (
                StateView::Delivering,
                deliver(delivery, target_notice(target, mute_failed_outcome(error))),
            ),
            _ => out_of_turn(),
        },
        StateView::RecordingMute { target, delivery } => match e {
            EventView::Recorded => (
                StateView::Delivering,
                deliver(delivery, target_notice(target, muted_outcome())),
            ),
            _ => out_of_turn(),
        },
        StateView::RecordingLogView { target } => match e {
            EventView::Recorded => (
                StateView::Closing,
                ActionView::Respond {
                    kind: ResponseKind::NewMessage,
                    content: target_notice(target, logs_viewed_outcome()),
                    components: ComponentsView::Unchanged,
                },
            ),
            _ => out_of_turn(),
        },
        StateView::Delivering => match e {
            EventView::Sent(true) => done(),
            EventView::Sent(false) => (StateView::Finished, ActionView::Abort),
            _ => out_of_turn(),
        },
        StateView::Closing => match e {
            EventView::Sent(_) => done(),
            _ => out_of_turn(),
        },
        StateView::Finished => out_of_turn(),
    }
}


// ---------------------------------------------------------------------------
// Building texts and buttons

/// How a target is named in messages.
pub fn target_mention_text(t: &Target) -> (s: String)
    ensures
        s@ == target_mention(t@),
{
    let id = u64_text(t.user_id);
    let mut s = String::from_str("`");
    s.append(t.tag.as_str());
    s.append("` (`");
    s.append(id.as_str());
    s.append("`)");
    s
}

/// The question shown above the menu of actions.
pub fn menu_prompt_text(t: &Target) -> (s: String)
    ensures
        s@ == menu_prompt(t@),
{
    let mention = target_mention_text(t);
    let mut s = String::from_str("What would you like to do to ");
    s.append(mention.as_str());
    s.append("?");
    s
}

/// A message about the target and what became of them.
pub fn target_notice_text(t: &Target, outcome: &str) -> (s: String)
    ensures
        s@ == target_notice(t@, outcome@),
{
    let mention = target_mention_text(t);
    let mut s = String::from_str("User ");
    s.append(mention.as_str());
    s.append(" ");
    s.append(outcome);
    s
}

/// The outcome told when adding the mute role failed with `error`.
pub fn mute_failed_text(error: &str) -> (s: String)
    ensures
        s@ == mute_failed_outcome(error@),
{
    let mut s = String::from_str(
        "could not be muted! Might be a lack of permissions or this role doesn't exist.\n**",
    );
    s.append(error);
    s.append("**");
    s
}

fn make_button(style: ButtonStyle, label: &str, custom_id: &str) -> (b: Button)
    ensures
        b@ == button_spec(style, label@, custom_id@),
{
    Button { style, label: String::from_str(label), custom_id: String::from_str(custom_id) }
}

/// The menu of actions on the target.
pub fn menu_button_row() -> (v: Vec<Button>)
    ensures
        v@.map_values(|b: Button| b@) == menu_buttons(),
{
    let mut v: Vec<Button> = Vec::new();
    v.push(make_button(ButtonStyle::Primary, "Mute", "btn-mute"));
    v.push(make_button(ButtonStyle::Secondary, "Kick", "btn-kick"));
    v.push(make_button(ButtonStyle::Danger, "Ban", "btn-ban"));
    v.push(make_button(ButtonStyle::Success, "View Logs", "btn-logs"));
    assert(v@.map_values(|b: Button| b@) =~= menu_buttons());
    v
}

/// The choice of mute duration.
pub fn duration_button_row() -> (v: Vec<Button>)
    ensures
        v@.map_values(|b: Button| b@) == duration_buttons(),
{
    let mut v: Vec<Button> = Vec::new();
    v.push(make_button(ButtonStyle::Danger, "Forever", "forever"));
    v.push(make_button(ButtonStyle::Primary, "Custom", "custom"));
    assert(v@.map_values(|b: Button| b@) =~= duration_buttons());
    v
}

/// The choice of giving a reason.
pub fn reason_button_row() -> (v: Vec<Button>)
    ensures
        v@.map_values(|b: Button| b@) == reason_buttons(),
{
    let mut v: Vec<Button> = Vec::new();
    v.push(make_button(ButtonStyle::Primary, "Yes", "yes"));
    v.push(make_button(ButtonStyle::Primary, "No", "no"));
    assert(v@.map_values(|b: Button| b@) =~= reason_buttons());
    v
}

/// The target described by a fetched member.
pub fn target_from_member(m: MemberInfo) -> (t: Target)
    ensures
        t@ == target_of(m@),
{
    let tag = user_tag(m.name.as_str(), m.discriminator);
    Target { user_id: m.user_id, guild_id: m.guild_id, tag }
}

fn deliver_text(delivery: Delivery, text: String) -> (a: SessionAction)
    ensures
        a@ == deliver(delivery, text@),
{
    match delivery {
        Delivery::FollowUp => SessionAction::FollowUp(text),
        Delivery::UpdateAndClear => SessionAction::Respond {
            kind: ResponseKind::UpdateMessage,
            content: text,
            components: Components::Cleared,
        },
    }
}


impl SessionState {
    /// A session that has not started yet.
    pub fn new() -> (s: SessionState)
        ensures
            s@ == StateView::Start,
    {
        SessionState::Start
    }

    /// Whether the session is over.
    pub fn is_finished(&self) -> (b: bool)
        ensures
            b == (self@ == StateView::Finished),
    {
        match self {
            SessionState::Finished => true,
            _ => false,
        }
    }

    /// One step of the moderation command: given the outcome of the last action,
    /// the next state and the next action.
    pub fn step(self, event: SessionEvent) -> (r: (SessionState, SessionAction))
        ensures
            (r.0@, r.1@) == session_step(self@, event@),
    {
        match self {
            SessionState::Start => match event {
                SessionEvent::Invoked { is_private, issuer, guild } => {
                    if is_private {
                        let text = String::from_str("You can't kick anyone in private messages!");
                        (SessionState::ReplyingInDm, SessionAction::ReplyInChannel(text))
                    } else {
                        (SessionState::AwaitingMention { issuer, guild }, SessionAction::ReadMention)
                    }
                },
                _ => (SessionState::Finished, SessionAction::Abort),
            },
            SessionState::ReplyingInDm => match event {
                SessionEvent::Sent(ok) => (SessionState::Finished, SessionAction::Finish { error: !ok }),
                _ => (SessionState::Finished, SessionAction::Abort),
            },
            SessionState::AwaitingMention { issuer, guild } => match event {
                SessionEvent::MentionRead(None) => (
                    SessionState::Finished,
                    SessionAction::Finish { error: true },
                ),
                SessionEvent::MentionRead(Some(mention)) => match guild {
                    Some(g) => (
                        SessionState::AwaitingTarget { issuer },
                        SessionAction::ResolveTarget { mention, guild: g },
                    ),
                    None => (SessionState::Finished, SessionAction::Abort),
                },
                _ => (SessionState::Finished, SessionAction::Abort),
            },
            SessionState::AwaitingTarget { issuer } => match event {
                SessionEvent::TargetResolved(Some(u)) => (
                    SessionState::AwaitingMember { issuer },
                    SessionAction::FetchMember { user_id: u },
                ),
                SessionEvent::TargetResolved(None) => (SessionState::Finished, SessionAction::Abort),
                _ => (SessionState::Finished, SessionAction::Abort),
            },
            SessionState::AwaitingMember { issuer } => match event {
                SessionEvent::MemberFetched(Some(m)) => {
                    let target = target_from_member(m);
                    let content = menu_prompt_text(&target);
                    let buttons = menu_button_row();
                    (
                        SessionState::SendingMenu { issuer, target },
                        SessionAction::SendMenu { content, buttons },
                    )
                },
                SessionEvent::MemberFetched(None) => (SessionState::Finished, SessionAction::Abort),
                _ => (SessionState::Finished, SessionAction::Abort),
            },
            SessionState::SendingMenu { issuer, target } => match event {
                SessionEvent::Sent(true) => (
                    SessionState::AwaitingMenuChoice { issuer, target },
                    SessionAction::AwaitComponent { author: issuer, secs: BUTTON_WAIT_SECS },
                ),
                SessionEvent::Sent(false) => (
                    SessionState::Finished,
                    SessionAction::Finish { error: true },
                ),
                _ => (SessionState::Finished, SessionAction::Abort),
            },
            SessionState::AwaitingMenuChoice { issuer, target } => match event {
                SessionEvent::Answered(Answer::Component(id)) => {
                    if text_is(id.as_str(), "btn-mute") {
                        (
                            SessionState::SendingDurationPrompt { issuer, target },
                            SessionAction::Respond {
                                kind: ResponseKind::UpdateMessage,
                                content: String::from_str("How long would you like to mute for?"),
                                components: Components::Buttons(duration_button_row()),
                            },
                        )
                    } else if text_is(id.as_str(), "btn-kick") {
                        let content = target_notice_text(&target, "has been kicked.");
                        (
                            SessionState::Closing,
                            SessionAction::Respond {
                                kind: ResponseKind::NewMessage,
                                content,
                                components: Components::Unchanged,
                            },
                        )
                    } else if text_is(id.as_str(), "btn-ban") {
                        let content = target_notice_text(&target, "has been banned.");
                        (
                            SessionState::Closing,
                            SessionAction::Respond {
                                kind: ResponseKind::NewMessage,
                                content,
                                components: Components::Unchanged,
                            },
                        )
                    } else if text_is(id.as_str(), "btn-logs") {
                        let record = ActionRecord::new(
                            ModAction::ViewLogs,
                            issuer,
                            target.user_id,
                            String::from_str("None"),
                            target.guild_id,
                        );
                        (SessionState::RecordingLogView { target }, SessionAction::Record(record))
                    } else {
                        (SessionState::Finished, SessionAction::Finish { error: false })
                    }
                },
                SessionEvent::Answered(_) => (
                    SessionState::Finished,
                    SessionAction::Finish { error: false },
                ),
                _ => (SessionState::Finished, SessionAction::Abort),
            },
            SessionState::SendingDurationPrompt { issuer, target } => match event {
                SessionEvent::Sent(true) => (
                    SessionState::AwaitingDuration { issuer, target },
                    SessionAction::AwaitComponent { author: issuer, secs: BUTTON_WAIT_SECS },
                ),
                SessionEvent::Sent(false) => (SessionState::Finished, SessionAction::Abort),
                _ => (SessionState::Finished, SessionAction::Abort),
            },
            SessionState::AwaitingDuration { issuer, target } => match event {
                SessionEvent::Answered(Answer::Component(id)) => {
                    if text_is(id.as_str(), "forever") {
                        (
                            SessionState::SendingReasonPrompt { issuer, target },
                            SessionAction::Respond {
                                kind: ResponseKind::UpdateMessage,
                                content: String::from_str("Would you like to provide a reason?"),
                                components: Components::Buttons(reason_button_row()),
                            },
                        )
                    } else {
                        (SessionState::Finished, SessionAction::Finish { error: false })
                    }
                },
                SessionEvent::Answered(_) => (
                    SessionState::Finished,
                    SessionAction::Finish { error: false },
                ),
                _ => (SessionState::Finished, SessionAction::Abort),
            },
            SessionState::SendingReasonPrompt { issuer, target } => match event {
                SessionEvent::Sent(true) => (
                    SessionState::AwaitingReasonChoice { issuer, target },
                    SessionAction::AwaitComponent { author: issuer, secs: BUTTON_WAIT_SECS },
                ),
                SessionEvent::Sent(false) => (SessionState::Finished, SessionAction::Abort),
                _ => (SessionState::Finished, SessionAction::Abort),
            },
            SessionState::AwaitingReasonChoice { issuer, target } => match event {
                SessionEvent::Answered(Answer::Component(id)) => {
                    if text_is(id.as_str(), "yes") {
                        (
                            SessionState::SendingReasonRequest { issuer, target },
                            SessionAction::Respond {
                                kind: ResponseKind::UpdateMessage,
                                content: String::from_str("Type your reason."),
                                components: Components::Cleared,
                            },
                        )
                    } else if text_is(id.as_str(), "no") {
                        (
                            SessionState::Muting {
                                issuer,
                                target,
                                reason: String::from_str("None"),
                                delivery: Delivery::UpdateAndClear,
                            },
                            SessionAction::AddRole { role_id: MUTE_ROLE_ID },
                        )
                    } else {
                        (SessionState::Finished, SessionAction::Finish { error: false })
                    }
                },
                SessionEvent::Answered(_) => (
                    SessionState::Finished,
                    SessionAction::Finish { error: false },
                ),
                _ => (SessionState::Finished, SessionAction::Abort),
            },
            SessionState::SendingReasonRequest { issuer, target } => match event {
                SessionEvent::Sent(_) => (
                    SessionState::AwaitingReasonText { issuer, target },
                    SessionAction::AwaitReasonText { author: issuer, secs: REASON_WAIT_SECS },
                ),
                _ => (SessionState::Finished, SessionAction::Abort),
            },
            SessionState::AwaitingReasonText { issuer, target } => match event {
                SessionEvent::ReasonTyped(Some(reason)) => (
                    SessionState::Muting { issuer, target, reason, delivery: Delivery::FollowUp },
                    SessionAction::AddRole { role_id: MUTE_ROLE_ID },
                ),
                SessionEvent::ReasonTyped(None) => (
                    SessionState::Finished,
                    SessionAction::Finish { error: false },
                ),
                _ => (SessionState::Finished, SessionAction::Abort),
            },
            SessionState::Muting { issuer, target, reason, delivery } => match event {
                SessionEvent::RoleAdded(Ok(())) => {
                    let record = ActionRecord::new(
                        ModAction::Mute,
                        issuer,
                        target.user_id,
                        reason,
                        target.guild_id,
                    );
                    (SessionState::RecordingMute { target, delivery }, SessionAction::Record(record))
                },
                SessionEvent::RoleAdded(Err(error)) => {
                    let outcome = mute_failed_text(error.as_str());
                    let text = target_notice_text(&target, outcome.as_str());
                    (SessionState::Delivering, deliver_text(delivery, text))
                },
                _ => (SessionState::Finished, SessionAction::Abort),
            },
            SessionState::RecordingMute { target, delivery } => match event {
                SessionEvent::Recorded => {
                    let text = target_notice_text(&target, "has been muted.");
                    (SessionState::Delivering, deliver_text(delivery, text))
                },
                _ => (SessionState::Finished, SessionAction::Abort),
            },
            SessionState::RecordingLogView { target } => match event {
                SessionEvent::Recorded => {
                    let content = target_notice_text(&target, "has had their logs viewed.");
                    (
                        SessionState::Closing,
                        SessionAction::Respond {
                            kind: ResponseKind::NewMessage,
                            content,
                            components: Components::Unchanged,
                        },
                    )
                },
                _ => (SessionState::Finished, SessionAction::Abort),
            },
            SessionState::Delivering => match event {
                SessionEvent::Sent(true) => (
                    SessionState::Finished,
                    SessionAction::Finish { error: false },
                ),
                SessionEvent::Sent(false) => (SessionState::Finished, SessionAction::Abort),
                _ => (SessionState::Finished, SessionAction::Abort),
            },
            SessionState::Closing => match event {
                SessionEvent::Sent(_) => (SessionState::Finished, SessionAction::Finish { error: false }),
                _ => (SessionState::Finished, SessionAction::Abort),
            },
            SessionState::Finished => (SessionState::Finished, SessionAction::Abort),
        }
    }
}


// ---------------------------------------------------------------------------
// Laws of the moderation command

/// How many more steps a session in this state can take at most.
pub open spec fn session_rank(s: StateView) -> nat {
    match s {
        StateView::Start => 20,
        StateView::AwaitingMention { .. } => 19,
        StateView::AwaitingTarget { .. } => 18,
        StateView::AwaitingMember { .. } => 17,
        StateView::SendingMenu { .. } => 16,
        StateView::AwaitingMenuChoice { .. } => 15,
        StateView::SendingDurationPrompt { .. } => 14,
        StateView::AwaitingDuration { .. } => 13,
        StateView::SendingReasonPrompt { .. } => 12,
        StateView::AwaitingReasonChoice { .. } => 11,
        StateView::SendingReasonRequest { .. } => 10,
        StateView::AwaitingReasonText { .. } => 9,
        StateView::Muting { .. } => 8,
        StateView::RecordingMute { .. } => 7,
        StateView::RecordingLogView { .. } => 3,
        StateView::Delivering => 2,
        StateView::ReplyingInDm => 1,
        StateView::Closing => 1,
        StateView::Finished => 0,
    }
}

/// The moderator a session acts for, once it is known.
pub open spec fn state_issuer(s: StateView) -> Option<u64> {
    match s {
        StateView::AwaitingMention { issuer, .. } => Some(issuer),
        StateView::AwaitingTarget { issuer } => Some(issuer),
        StateView::AwaitingMember { issuer } => Some(issuer),
        StateView::SendingMenu { issuer, .. } => Some(issuer),
        StateView::AwaitingMenuChoice { issuer, .. } => Some(issuer),
        StateView::SendingDurationPrompt { issuer, .. } => Some(issuer),
        StateView::AwaitingDuration { issuer, .. } => Some(issuer),
        StateView::SendingReasonPrompt { issuer, .. } => Some(issuer),
        StateView::AwaitingReasonChoice { issuer, .. } => Some(issuer),
        StateView::SendingReasonRequest { issuer, .. } => Some(issuer),
        StateView::AwaitingReasonText { issuer, .. } => Some(issuer),
        StateView::Muting { issuer, .. } => Some(issuer),
        _ => None,
    }
}

/// Every step of an unfinished session brings it closer to its end, so a
/// moderation command is over after at most twenty steps, whatever happens.
pub proof fn lemma_session_progress(s: StateView, e: EventView)
    requires
        !(s is Finished),
    ensures
        session_rank(session_step(s, e).0) < session_rank(s),
{
}

/// A finished session stays finished.
pub proof fn lemma_finished_stays_finished(e: EventView)
    ensures
        session_step(StateView::Finished, e).0 is Finished,
{
}

/// In a private channel the command refuses, and ends once the refusal is sent.
pub proof fn lemma_private_channel_refused(issuer: u64, guild: Option<u64>, e: EventView)
    ensures
        session_step(StateView::Start, EventView::Invoked { is_private: true, issuer, guild })
            == (StateView::ReplyingInDm, ActionView::ReplyInChannel(dm_refusal())),
        session_step(StateView::ReplyingInDm, e).0 is Finished,
{
}

/// The mute role is added only after the moderator chose a permanent mute and
/// then either declined to give a reason or typed one; the role is always the
/// mute role.
pub proof fn lemma_mute_needs_confirmation(s: StateView, e: EventView)
    requires
        session_step(s, e).1 is AddRole,
    ensures
        (s is AwaitingReasonChoice && e == EventView::Answered(AnswerView::Component("no"@)))
            || (s is AwaitingReasonText && e matches EventView::ReasonTyped(Some(_))),
        session_step(s, e).1 == (ActionView::AddRole { role_id: MUTE_ROLE_ID }),
{
}

/// A mute is written to the action log only once its role was added, and the
/// record names the moderator, the target, the target's guild and the reason given.
pub proof fn lemma_mute_record_follows_role(s: StateView, e: EventView, r: ActionRecordView)
    requires
        session_step(s, e).1 == ActionView::Record(r),
        r.kind == ModAction::Mute,
    ensures
        e matches EventView::RoleAdded(Ok(_)),
        s matches StateView::Muting { issuer, target, reason, .. } && r == action_record_spec(
            ModAction::Mute,
            issuer,
            target.user_id,
            reason,
            target.guild_id,
        ),
{
}

/// Every wait listens to the moderator who invoked the command, and a step never
/// changes who that is.
pub proof fn lemma_waits_follow_issuer(s: StateView, e: EventView)
    ensures
        session_step(s, e).1 matches ActionView::AwaitComponent { author, .. } ==> state_issuer(s)
            == Some(author),
        session_step(s, e).1 matches ActionView::AwaitReasonText { author, .. } ==> state_issuer(s)
            == Some(author),
        state_issuer(s) is Some && state_issuer(session_step(s, e).0) is Some ==> state_issuer(
            session_step(s, e).0,
        ) == state_issuer(s),
{
}

/// A reason typed by the moderator is recorded exactly as typed.
pub proof fn lemma_typed_reason_recorded(issuer: u64, target: TargetView, reason: Seq<char>)
    ensures
        session_step(
            session_step(
                StateView::AwaitingReasonText { issuer, target },
                EventView::ReasonTyped(Some(reason)),
            ).0,
            EventView::RoleAdded(Ok(())),
        ).1 == ActionView::Record(
            action_record_spec(ModAction::Mute, issuer, target.user_id, reason, target.guild_id),
        ),
{
}

/// A command invoked outside a private channel first asks for its argument, and
/// remembers who invoked it and where.
pub proof fn lemma_invocation_reads_argument(issuer: u64, guild: Option<u64>)
    ensures
        session_step(StateView::Start, EventView::Invoked { is_private: false, issuer, guild }) == (
            StateView::AwaitingMention { issuer, guild },
            ActionView::ReadMention,
        ),
{
}

/// The refusal in a private channel ends the command, failing exactly when the
/// refusal could not be sent.
pub proof fn lemma_refusal_outcome(ok: bool)
    ensures
        session_step(StateView::ReplyingInDm, EventView::Sent(ok)) == (
            StateView::Finished,
            ActionView::Finish { error: !ok },
        ),
{
}

/// An unreadable argument fails the command; a readable one is looked up in the
/// invoking guild, and without a guild the command cannot go on.
pub proof fn lemma_argument_outcome(issuer: u64, guild: Option<u64>, mention: Seq<char>)
    ensures
        session_step(StateView::AwaitingMention { issuer, guild }, EventView::MentionRead(None)) == (
            StateView::Finished,
            ActionView::Finish { error: true },
        ),
        guild matches Some(g) ==> session_step(
            StateView::AwaitingMention { issuer, guild },
            EventView::MentionRead(Some(mention)),
        ) == (StateView::AwaitingTarget { issuer }, ActionView::ResolveTarget { mention, guild: g }),
        guild is None ==> session_step(
            StateView::AwaitingMention { issuer, guild },
            EventView::MentionRead(Some(mention)),
        ) == (StateView::Finished, ActionView::Abort),
{
}

/// A resolved user is fetched as a member; an argument naming nobody stops the command.
pub proof fn lemma_target_outcome(issuer: u64, user_id: u64)
    ensures
        session_step(StateView::AwaitingTarget { issuer }, EventView::TargetResolved(Some(user_id)))
            == (StateView::AwaitingMember { issuer }, ActionView::FetchMember { user_id }),
        session_step(StateView::AwaitingTarget { issuer }, EventView::TargetResolved(None)) == (
            StateView::Finished,
            ActionView::Abort,
        ),
{
}

/// A fetched member becomes the target, named by its tag (name, `#`, four-digit
/// discriminator) and id, and the menu of four actions is sent about them; a
/// member that cannot be fetched stops the command.
pub proof fn lemma_member_outcome(issuer: u64, m: MemberInfoView)
    ensures
        ({
            let t = TargetView {
                user_id: m.user_id,
                guild_id: m.guild_id,
                tag: tag_text(m.name, m.discriminator),
            };
            session_step(StateView::AwaitingMember { issuer }, EventView::MemberFetched(Some(m))) == (
                StateView::SendingMenu { issuer, target: t },
                ActionView::SendMenu { content: menu_prompt(t), buttons: menu_buttons() },
            )
        }),
        session_step(StateView::AwaitingMember { issuer }, EventView::MemberFetched(None)) == (
            StateView::Finished,
            ActionView::Abort,
        ),
{
}

/// Once the menu is sent the session waits a minute for the moderator's choice;
/// a menu that could not be sent fails the command.
pub proof fn lemma_menu_sent_outcome(issuer: u64, target: TargetView)
    ensures
        session_step(StateView::SendingMenu { issuer, target }, EventView::Sent(true)) == (
            StateView::AwaitingMenuChoice { issuer, target },
            ActionView::AwaitComponent { author: issuer, secs: 60 },
        ),
        session_step(StateView::SendingMenu { issuer, target }, EventView::Sent(false)) == (
            StateView::Finished,
            ActionView::Finish { error: true },
        ),
{
}

/// The four menu buttons lead to: the mute dialogue, a kick notice, a ban notice,
/// or a logged view of the logs. Any other answer, or none, ends the command
/// without error.
pub proof fn lemma_menu_choice(issuer: u64, target: TargetView, id: Seq<char>)
    ensures
        session_step(
            StateView::AwaitingMenuChoice { issuer, target },
            EventView::Answered(AnswerView::Component("btn-mute"@)),
        ) == (
            StateView::SendingDurationPrompt { issuer, target },
            ActionView::Respond {
                kind: ResponseKind::UpdateMessage,
                content: duration_prompt(),
                components: ComponentsView::Buttons(duration_buttons()),
            },
        ),
        session_step(
            StateView::AwaitingMenuChoice { issuer, target },
            EventView::Answered(AnswerView::Component("btn-kick"@)),
        ) == (
            StateView::Closing,
            ActionView::Respond {
                kind: ResponseKind::NewMessage,
                content: target_notice(target, kicked_outcome()),
                components: ComponentsView::Unchanged,
            },
        ),
        session_step(
            StateView::AwaitingMenuChoice { issuer, target },
            EventView::Answered(AnswerView::Component("btn-ban"@)),
        ) == (
            StateView::Closing,
            ActionView::Respond {
                kind: ResponseKind::NewMessage,
                content: target_notice(target, banned_outcome()),
                components: ComponentsView::Unchanged,
            },
        ),
        session_step(
            StateView::AwaitingMenuChoice { issuer, target },
            EventView::Answered(AnswerView::Component("btn-logs"@)),
        ) == (
            StateView::RecordingLogView { target },
            ActionView::Record(
                action_record_spec(ModAction::ViewLogs, issuer, target.user_id, "None"@, target.guild_id),
            ),
        ),
        id != "btn-mute"@ && id != "btn-kick"@ && id != "btn-ban"@ && id != "btn-logs"@
            ==> session_step(
            StateView::AwaitingMenuChoice { issuer, target },
            EventView::Answered(AnswerView::Component(id)),
        ) == (StateView::Finished, ActionView::Finish { error: false }),
        session_step(
            StateView::AwaitingMenuChoice { issuer, target },
            EventView::Answered(AnswerView::TimedOut),
        ) == (StateView::Finished, ActionView::Finish { error: false }),
        session_step(
            StateView::AwaitingMenuChoice { issuer, target },
            EventView::Answered(AnswerView::Unsupported),
        ) == (StateView::Finished, ActionView::Finish { error: false }),
{
    reveal_strlit("btn-mute");
    reveal_strlit("btn-kick");
    reveal_strlit("btn-ban");
    reveal_strlit("btn-logs");
    assert("btn-kick"@[4] != "btn-mute"@[4]);
    assert("btn-ban"@[4] != "btn-mute"@[4]);
    assert("btn-ban"@[4] != "btn-kick"@[4]);
    assert("btn-logs"@[4] != "btn-mute"@[4]);
    assert("btn-logs"@[4] != "btn-kick"@[4]);
    assert("btn-logs"@[4] != "btn-ban"@[4]);
}

/// A kick or a ban is only announced, and once the notice went out, whether or
/// not it could be sent, the command ends without error.
pub proof fn lemma_kick_and_ban_end_the_command(issuer: u64, target: TargetView, ok: bool)
    ensures
        session_step(
            session_step(
                StateView::AwaitingMenuChoice { issuer, target },
                EventView::Answered(AnswerView::Component("btn-kick"@)),
            ).0,
            EventView::Sent(ok),
        ) == (StateView::Finished, ActionView::Finish { error: false }),
        session_step(
            session_step(
                StateView::AwaitingMenuChoice { issuer, target },
                EventView::Answered(AnswerView::Component("btn-ban"@)),
            ).0,
            EventView::Sent(ok),
        ) == (StateView::Finished, ActionView::Finish { error: false }),
{
    reveal_strlit("btn-mute");
    reveal_strlit("btn-kick");
    reveal_strlit("btn-ban");
    reveal_strlit("btn-logs");
    assert("btn-kick"@[4] != "btn-mute"@[4]);
    assert("btn-ban"@[4] != "btn-mute"@[4]);
    assert("btn-ban"@[4] != "btn-kick"@[4]);
    assert("btn-logs"@[4] != "btn-mute"@[4]);
    assert("btn-logs"@[4] != "btn-kick"@[4]);
    assert("btn-logs"@[4] != "btn-ban"@[4]);
}

/// A prompt of the mute dialogue that was sent leads to a minute's wait for the
/// moderator's button; one that could not be sent stops the command.
pub proof fn lemma_prompt_sent_outcome(issuer: u64, target: TargetView)
    ensures
        session_step(StateView::SendingDurationPrompt { issuer, target }, EventView::Sent(true)) == (
            StateView::AwaitingDuration { issuer, target },
            ActionView::AwaitComponent { author: issuer, secs: 60 },
        ),
        session_step(StateView::SendingDurationPrompt { issuer, target }, EventView::Sent(false))
            == (StateView::Finished, ActionView::Abort),
        session_step(StateView::SendingReasonPrompt { issuer, target }, EventView::Sent(true)) == (
            StateView::AwaitingReasonChoice { issuer, target },
            ActionView::AwaitComponent { author: issuer, secs: 60 },
        ),
        session_step(StateView::SendingReasonPrompt { issuer, target }, EventView::Sent(false))
            == (StateView::Finished, ActionView::Abort),
{
}

/// Only a permanent mute goes on to the question of a reason; any other answer to
/// the duration prompt, a custom duration included, ends the command without a mute.
pub proof fn lemma_only_forever_asks_reason(issuer: u64, target: TargetView, id: Seq<char>)
    ensures
        session_step(
            StateView::AwaitingDuration { issuer, target },
            EventView::Answered(AnswerView::Component("forever"@)),
        ) == (
            StateView::SendingReasonPrompt { issuer, target },
            ActionView::Respond {
                kind: ResponseKind::UpdateMessage,
                content: reason_prompt(),
                components: ComponentsView::Buttons(reason_buttons()),
            },
        ),
        id != "forever"@ ==> session_step(
            StateView::AwaitingDuration { issuer, target },
            EventView::Answered(AnswerView::Component(id)),
        ) == (StateView::Finished, ActionView::Finish { error: false }),
        session_step(
            StateView::AwaitingDuration { issuer, target },
            EventView::Answered(AnswerView::TimedOut),
        ) == (StateView::Finished, ActionView::Finish { error: false }),
        session_step(
            StateView::AwaitingDuration { issuer, target },
            EventView::Answered(AnswerView::Unsupported),
        ) == (StateView::Finished, ActionView::Finish { error: false }),
{
}

/// "Yes" asks the moderator to type a reason; "No" mutes at once with the reason
/// `None`, answering in the prompt; any other answer ends the command.
pub proof fn lemma_reason_choice(issuer: u64, target: TargetView, id: Seq<char>)
    ensures
        session_step(
            StateView::AwaitingReasonChoice { issuer, target },
            EventView::Answered(AnswerView::Component("yes"@)),
        ) == (
            StateView::SendingReasonRequest { issuer, target },
            ActionView::Respond {
                kind: ResponseKind::UpdateMessage,
                content: reason_request(),
                components: ComponentsView::Cleared,
            },
        ),
        session_step(
            StateView::AwaitingReasonChoice { issuer, target },
            EventView::Answered(AnswerView::Component("no"@)),
        ) == (
            StateView::Muting {
                issuer,
                target,
                reason: "None"@,
                delivery: Delivery::UpdateAndClear,
            },
            ActionView::AddRole { role_id: MUTE_ROLE_ID },
        ),
        id != "yes"@ && id != "no"@ ==> session_step(
            StateView::AwaitingReasonChoice { issuer, target },
            EventView::Answered(AnswerView::Component(id)),
        ) == (StateView::Finished, ActionView::Finish { error: false }),
        session_step(
            StateView::AwaitingReasonChoice { issuer, target },
            EventView::Answered(AnswerView::TimedOut),
        ) == (StateView::Finished, ActionView::Finish { error: false }),
{
    reveal_strlit("yes");
    reveal_strlit("no");
    assert("no"@.len() != "yes"@.len());
}

/// After asking for a reason, the session waits fifteen seconds for the
/// moderator's message; a typed reason mutes, answered by a follow-up, and no
/// reason in time ends the command without a mute.
pub proof fn lemma_typed_reason_outcome(issuer: u64, target: TargetView, ok: bool, reason: Seq<char>)
    ensures
        session_step(StateView::SendingReasonRequest { issuer, target }, EventView::Sent(ok)) == (
            StateView::AwaitingReasonText { issuer, target },
            ActionView::AwaitReasonText { author: issuer, secs: 15 },
        ),
        session_step(
            StateView::AwaitingReasonText { issuer, target },
            EventView::ReasonTyped(Some(reason)),
        ) == (
            StateView::Muting { issuer, target, reason, delivery: Delivery::FollowUp },
            ActionView::AddRole { role_id: MUTE_ROLE_ID },
        ),
        session_step(StateView::AwaitingReasonText { issuer, target }, EventView::ReasonTyped(None))
            == (StateView::Finished, ActionView::Finish { error: false }),
{
}

/// When the mute role could not be added, nothing is recorded and the moderator
/// is told the mute failed, with the error, by the same way the dialogue answers.
pub proof fn lemma_failed_mute_reported(
    issuer: u64,
    target: TargetView,
    reason: Seq<char>,
    delivery: Delivery,
    error: Seq<char>,
)
    ensures
        session_step(
            StateView::Muting { issuer, target, reason, delivery },
            EventView::RoleAdded(Err(error)),
        ) == (
            StateView::Delivering,
            deliver(delivery, target_notice(target, mute_failed_outcome(error))),
        ),
        delivery == Delivery::FollowUp ==> session_step(
            StateView::Muting { issuer, target, reason, delivery },
            EventView::RoleAdded(Err(error)),
        ).1 == ActionView::FollowUp(target_notice(target, mute_failed_outcome(error))),
{
}

/// When the mute role was added, the mute is recorded with the moderator, the
/// target, the guild and the reason, and only after the record is written is the
/// moderator told the member has been muted.
pub proof fn lemma_successful_mute(issuer: u64, target: TargetView, reason: Seq<char>, delivery: Delivery)
    ensures
        session_step(
            StateView::Muting { issuer, target, reason, delivery },
            EventView::RoleAdded(Ok(())),
        ) == (
            StateView::RecordingMute { target, delivery },
            ActionView::Record(
                action_record_spec(ModAction::Mute, issuer, target.user_id, reason, target.guild_id),
            ),
        ),
        session_step(StateView::RecordingMute { target, delivery }, EventView::Recorded) == (
            StateView::Delivering,
            deliver(delivery, target_notice(target, muted_outcome())),
        ),
{
}

/// After a view of the logs is recorded the moderator gets a new message about
/// it, and that ends the command without error however the send went.
pub proof fn lemma_logs_view_outcome(target: TargetView, ok: bool)
    ensures
        session_step(StateView::RecordingLogView { target }, EventView::Recorded) == (
            StateView::Closing,
            ActionView::Respond {
                kind: ResponseKind::NewMessage,
                content: target_notice(target, logs_viewed_outcome()),
                components: ComponentsView::Unchanged,
            },
        ),
        session_step(StateView::Closing, EventView::Sent(ok)) == (
            StateView::Finished,
            ActionView::Finish { error: false },
        ),
{
}

/// The outcome of a mute that reached the moderator ends the command without
/// error; one that could not be sent stops it.
pub proof fn lemma_delivery_outcome()
    ensures
        session_step(StateView::Delivering, EventView::Sent(true)) == (
            StateView::Finished,
            ActionView::Finish { error: false },
        ),
        session_step(StateView::Delivering, EventView::Sent(false)) == (
            StateView::Finished,
            ActionView::Abort,
        ),
{
}

/// Whether `e` is the outcome the state waits for.
pub open spec fn awaits(s: StateView, e: EventView) -> bool {
    match s {
        StateView::Start => e is Invoked,
        StateView::ReplyingInDm => e is Sent,
        StateView::AwaitingMention { .. } => e is MentionRead,
        StateView::AwaitingTarget { .. } => e is TargetResolved,
        StateView::AwaitingMember { .. } => e is MemberFetched,
        StateView::SendingMenu { .. } => e is Sent,
        StateView::AwaitingMenuChoice { .. } => e is Answered,
        StateView::SendingDurationPrompt { .. } => e is Sent,
        StateView::AwaitingDuration { .. } => e is Answered,
        StateView::SendingReasonPrompt { .. } => e is Sent,
        StateView::AwaitingReasonChoice { .. } => e is Answered,
        StateView::SendingReasonRequest { .. } => e is Sent,
        StateView::AwaitingReasonText { .. } => e is ReasonTyped,
        StateView::Muting { .. } => e is RoleAdded,
        StateView::RecordingMute { .. } => e is Recorded,
        StateView::RecordingLogView { .. } => e is Recorded,
        StateView::Delivering => e is Sent,
        StateView::Closing => e is Sent,
        StateView::Finished => false,
    }
}

/// An outcome the session does not wait for, or any outcome after the session
/// ended, stops it: the session finishes and asks the caller to abort.
pub proof fn lemma_out_of_turn_aborts(s: StateView, e: EventView)
    requires
        !awaits(s, e),
    ensures
        session_step(s, e) == (StateView::Finished, ActionView::Abort),
{
}

} // verus!
