use vstd::prelude::*;

verus! {

/// Urgency of a notification, mapped on the wire to the integers 1 through 5.
/// Values outside that range are unrepresentable by construction.
#[derive(Copy, Clone, Debug, PartialEq, Eq, Structural)]
pub enum NtfyPriority {
    Minimum,
    Low,
    Default,
    High,
    Maximum,
}

/// The wire integer of a priority: its ordinal position, starting at 1.
pub open spec fn priority_level(p: NtfyPriority) -> u8 {
    match p {
        NtfyPriority::Minimum => 1,
        NtfyPriority::Low => 2,
        NtfyPriority::Default => 3,
        NtfyPriority::High => 4,
        NtfyPriority::Maximum => 5,
    }
}

/// The priority denoted by a wire integer; anything out of range reads as
/// the default urgency.
pub open spec fn priority_of_level(value: u8) -> NtfyPriority {
    match value {
        1u8 => NtfyPriority::Minimum,
        2u8 => NtfyPriority::Low,
        4u8 => NtfyPriority::High,
        5u8 => NtfyPriority::Maximum,
        _ => NtfyPriority::Default,
    }
}

/// The decimal digit sent in the priority header.
pub open spec fn priority_digit(p: NtfyPriority) -> Seq<char> {
    match p {
        NtfyPriority::Minimum => "1"@,
        NtfyPriority::Low => "2"@,
        NtfyPriority::Default => "3"@,
        NtfyPriority::High => "4"@,
        NtfyPriority::Maximum => "5"@,
    }
}

impl NtfyPriority {
    /// The wire integer of this priority.
    pub fn level(self) -> (v: u8)
        ensures
            v == priority_level(self),
    {
        match self {
            NtfyPriority::Minimum => 1,
            NtfyPriority::Low => 2,
            NtfyPriority::Default => 3,
            NtfyPriority::High => 4,
            NtfyPriority::Maximum => 5,
        }
    }

    /// The priority a wire integer denotes.
    pub fn from_level(value: u8) -> (p: NtfyPriority)
        ensures
            p == priority_of_level(value),
    {
        match value {
            1 => NtfyPriority::Minimum,
            2 => NtfyPriority::Low,
            4 => NtfyPriority::High,
            5 => NtfyPriority::Maximum,
            _ => NtfyPriority::Default,
        }
    }

    /// The decimal digit sent in the priority header.
    pub fn header_value(self) -> (s: &'static str)
        ensures
            s@ == priority_digit(self),
    {
        match self {
            NtfyPriority::Minimum => "1",
            NtfyPriority::Low => "2",
            NtfyPriority::Default => "3",
            NtfyPriority::High => "4",
            NtfyPriority::Maximum => "5",
        }
    }
}

impl Default for NtfyPriority {
    fn default() -> (p: NtfyPriority)
        ensures
            p == NtfyPriority::Default,
    {
        NtfyPriority::Default
    }
}

/// The priority-to-wire mapping is a bijection between the five variants and
/// the integers 1 through 5: every priority maps into 1..=5, no two map to
/// the same integer, reading the integer back yields the same priority, and
/// the header digit is the decimal numeral of that integer.
pub proof fn lemma_priority_bijection()
    ensures
        forall|p: NtfyPriority| 1 <= #[trigger] priority_level(p) <= 5,
        forall|p: NtfyPriority, q: NtfyPriority|
            priority_level(p) == priority_level(q) ==> p == q,
        forall|p: NtfyPriority| priority_of_level(priority_level(p)) == p,
        forall|p: NtfyPriority| (#[trigger] priority_digit(p)).len() == 1,
        forall|p: NtfyPriority|
            (#[trigger] priority_digit(p))[0] as u32 == '0' as u32 + priority_level(p),
{
    reveal_strlit("1");
    reveal_strlit("2");
    reveal_strlit("3");
    reveal_strlit("4");
    reveal_strlit("5");
}

/// What an interactive button does when tapped.
#[derive(Copy, Clone, Debug, PartialEq, Eq, Structural)]
pub enum NtfyActionType {
    View,
    Broadcast,
    Http,
}

/// The fixed lowercase token that names an action type on the wire.
pub open spec fn action_type_token(t: NtfyActionType) -> Seq<char> {
    match t {
        NtfyActionType::View => "view"@,
        NtfyActionType::Broadcast => "broadcast"@,
        NtfyActionType::Http => "http"@,
    }
}

impl NtfyActionType {
    /// The fixed lowercase token that names this action type on the wire.
    pub fn value(&self) -> (s: &'static str)
        ensures
            s@ == action_type_token(*self),
    {
        match self {
            NtfyActionType::View => "view",
            NtfyActionType::Broadcast => "broadcast",
            NtfyActionType::Http => "http",
        }
    }
}

impl Default for NtfyActionType {
    fn default() -> (t: NtfyActionType)
        ensures
            t == NtfyActionType::View,
    {
        NtfyActionType::View
    }
}

/// One interactive button attached to a notification.
#[derive(Clone, Debug, PartialEq)]
pub struct NtfyAction {
    pub action: NtfyActionType,
    pub label: String,
    pub url: String,
    pub clear: Option<bool>,
}

/// Mathematical image of an [`NtfyAction`].
pub ghost struct ActionView {
    pub action: NtfyActionType,
    pub label: Seq<char>,
    pub url: Seq<char>,
    pub clear: Option<bool>,
}

impl View for NtfyAction {
    type V = ActionView;

    open spec fn view(&self) -> ActionView {
        ActionView {
            action: self.action,
            label: self.label@,
            url: self.url@,
            clear: self.clear,
        }
    }
}

impl NtfyAction {
    /// A view-type button with the given label and target.
    pub fn new(label: String, url: String) -> (a: NtfyAction)
        ensures
            a@ == (ActionView {
                action: NtfyActionType::View,
                label: label@,
                url: url@,
                clear: None,
            }),
    {
        NtfyAction { action: NtfyActionType::View, label, url, clear: None }
    }
}

/// One notification to send: the mandatory destination topic and the
/// optional body text, title, priority, tags, attachment reference,
/// click-through URL, interactive actions, delivery delay and email copy.
#[derive(Clone, Debug)]
pub struct NtfyMsg {
    pub topic: String,
    pub message: Option<String>,
    pub title: Option<String>,
    pub tags: Option<Vec<String>>,
    pub priority: Option<NtfyPriority>,
    pub attach: Option<String>,
    pub filename: Option<String>,
    pub click: Option<String>,
    pub actions: Option<Vec<NtfyAction>>,
    pub delay: Option<String>,
    pub email: Option<String>,
}

/// Mathematical image of an [`NtfyMsg`].
pub ghost struct MsgView {
    pub topic: Seq<char>,
    pub message: Option<Seq<char>>,
    pub title: Option<Seq<char>>,
    pub tags: Option<Seq<Seq<char>>>,
    pub priority: Option<NtfyPriority>,
    pub attach: Option<Seq<char>>,
    pub filename: Option<Seq<char>>,
    pub click: Option<Seq<char>>,
    pub actions: Option<Seq<ActionView>>,
    pub delay: Option<Seq<char>>,
    pub email: Option<Seq<char>>,
}

/// The view of an optional string.
pub open spec fn opt_view(o: Option<String>) -> Option<Seq<char>> {
    match o {
        Some(s) => Some(s@),
        None => None,
    }
}

/// The views of a list of strings.
pub open spec fn string_views(v: Seq<String>) -> Seq<Seq<char>> {
    v.map_values(|s: String| s@)
}

/// The views of a list of actions.
pub open spec fn action_views(v: Seq<NtfyAction>) -> Seq<ActionView> {
    v.map_values(|a: NtfyAction| a@)
}

/// The views of an optional list of strings.
pub open spec fn opt_seq_view(o: Option<Vec<String>>) -> Option<Seq<Seq<char>>> {
    match o {
        Some(v) => Some(string_views(v@)),
        None => None,
    }
}

/// The views of an optional list of actions.
pub open spec fn opt_actions_view(o: Option<Vec<NtfyAction>>) -> Option<Seq<ActionView>> {
    match o {
        Some(v) => Some(action_views(v@)),
        None => None,
    }
}

impl View for NtfyMsg {
    type V = MsgView;

    open spec fn view(&self) -> MsgView {
        MsgView {
            topic: self.topic@,
            message: opt_view(self.message),
            title: opt_view(self.title),
            tags: opt_seq_view(self.tags),
            priority: self.priority,
            attach: opt_view(self.attach),
            filename: opt_view(self.filename),
            click: opt_view(self.click),
            actions: opt_actions_view(self.actions),
            delay: opt_view(self.delay),
            email: opt_view(self.email),
        }
    }
}

/// The view of a message for `topic` with every optional field absent.
pub open spec fn bare_msg_view(topic: Seq<char>) -> MsgView {
    MsgView {
        topic: topic,
        message: None,
        title: None,
        tags: None,
        priority: None,
        attach: None,
        filename: None,
        click: None,
        actions: None,
        delay: None,
        email: None,
    }
}

impl NtfyMsg {
    /// A message for `topic` with every optional field absent.
    pub fn new(topic: &str) -> (m: NtfyMsg)
        ensures
            m@ == bare_msg_view(topic@),
    {
        NtfyMsg {
            topic: topic.to_owned(),
            message: None,
            title: None,
            tags: None,
            priority: None,
            attach: None,
            filename: None,
            click: None,
            actions: None,
            delay: None,
            email: None,
        }
    }

    /// A builder seeded with `topic` and every optional field absent.
    pub fn builder(topic: &str) -> (b: NtfyMsgBuilder)
        ensures
            b.msg@ == bare_msg_view(topic@),
    {
        NtfyMsgBuilder::new(topic)
    }
}

/// Fluent construction of an [`NtfyMsg`]: the mandatory topic first, then
/// any chain of optional setters.  Building never fails; an omitted field
/// simply stays absent.
pub struct NtfyMsgBuilder {
    pub msg: NtfyMsg,
}

impl NtfyMsgBuilder {
    pub fn new(topic: &str) -> (b: NtfyMsgBuilder)
        ensures
            b.msg@ == bare_msg_view(topic@),
    {
        NtfyMsgBuilder { msg: NtfyMsg::new(topic) }
    }

    /// Replace the destination topic.
    pub fn topic(self, topic: &str) -> (b: NtfyMsgBuilder)
        ensures
            b.msg@ == (MsgView { topic: topic@, ..self.msg@ }),
    {
        let mut b = self;
        b.msg.topic = topic.to_owned();
        b
    }

    /// Set the body text.
    pub fn message(self, message: &str) -> (b: NtfyMsgBuilder)
        ensures
            b.msg@ == (MsgView { message: Some(message@), ..self.msg@ }),
    {
        let mut b = self;
        b.msg.message = Some(message.to_owned());
        b
    }

    /// Set the title.
    pub fn title(self, title: &str) -> (b: NtfyMsgBuilder)
        ensures
            b.msg@ == (MsgView { title: Some(title@), ..self.msg@ }),
    {
        let mut b = self;
        b.msg.title = Some(title.to_owned());
        b
    }

    /// Replace the whole tag list.
    pub fn tags(self, tags: Vec<String>) -> (b: NtfyMsgBuilder)
        ensures
            b.msg@ == (MsgView {
                tags: Some(string_views(tags@)),
                ..self.msg@
            }),
    {
        let mut b = self;
        b.msg.tags = Some(tags);
        b
    }

    /// Append one tag, starting the list if there was none.
    pub fn add_tag(self, tag: &str) -> (b: NtfyMsgBuilder)
        ensures
            b.msg@ == (MsgView {
                tags: Some(
                    match self.msg@.tags {
                        Some(t) => t.push(tag@),
                        None => seq![tag@],
                    },
                ),
                ..self.msg@
            }),
    {
        let ghost before = self.msg@.tags;
        let mut b = self;
        let mut tags: Vec<String> = match b.msg.tags {
            Some(t) => t,
            None => Vec::new(),
        };
        tags.push(tag.to_owned());
        proof {
            match before {
                Some(t) => {
                    assert(string_views(tags@) =~= t.push(tag@));
                },
                None => {
                    assert(string_views(tags@) =~= seq![tag@]);
                },
            }
        }
        b.msg.tags = Some(tags);
        b
    }

    /// Set the priority.
    pub fn priority(self, priority: NtfyPriority) -> (b: NtfyMsgBuilder)
        ensures
            b.msg@ == (MsgView { priority: Some(priority), ..self.msg@ }),
    {
        let mut b = self;
        b.msg.priority = Some(priority);
        b
    }

    /// Set the attachment URL.
    pub fn attach(self, attach: &str) -> (b: NtfyMsgBuilder)
        ensures
            b.msg@ == (MsgView { attach: Some(attach@), ..self.msg@ }),
    {
        let mut b = self;
        b.msg.attach = Some(attach.to_owned());
        b
    }

    /// Set the attachment display name.
    pub fn filename(self, filename: &str) -> (b: NtfyMsgBuilder)
        ensures
            b.msg@ == (MsgView { filename: Some(filename@), ..self.msg@ }),
    {
        let mut b = self;
        b.msg.filename = Some(filename.to_owned());
        b
    }

    /// Set the click-through URL.
    pub fn click(self, click: &str) -> (b: NtfyMsgBuilder)
        ensures
            b.msg@ == (MsgView { click: Some(click@), ..self.msg@ }),
    {
        let mut b = self;
        b.msg.click = Some(click.to_owned());
        b
    }

    /// Replace the whole action list.
    pub fn actions(self, actions: Vec<NtfyAction>) -> (b: NtfyMsgBuilder)
        ensures
            b.msg@ == (MsgView {
                actions: Some(action_views(actions@)),
                ..self.msg@
            }),
    {
        let mut b = self;
        b.msg.actions = Some(actions);
        b
    }

    /// Append one action, starting the list if there was none.
    pub fn add_action(self, action: NtfyAction) -> (b: NtfyMsgBuilder)
        ensures
            b.msg@ == (MsgView {
                actions: Some(
                    match self.msg@.actions {
                        Some(a) => a.push(action@),
                        None => seq![action@],
                    },
                ),
                ..self.msg@
            }),
    {
        let ghost before = self.msg@.actions;
        let ghost av = action@;
        let mut b = self;
        let mut actions: Vec<NtfyAction> = match b.msg.actions {
            Some(a) => a,
            None => Vec::new(),
        };
        actions.push(action);
        proof {
            match before {
                Some(a) => {
                    assert(action_views(actions@) =~= a.push(av));
                },
                None => {
                    assert(action_views(actions@) =~= seq![av]);
                },
            }
        }
        b.msg.actions = Some(actions);
        b
    }

    /// Set the delivery delay expression.
    pub fn delay(self, delay: &str) -> (b: NtfyMsgBuilder)
        ensures
            b.msg@ == (MsgView { delay: Some(delay@), ..self.msg@ }),
    {
        let mut b = self;
        b.msg.delay = Some(delay.to_owned());
        b
    }

    /// Set the email copy recipient.
    pub fn email(self, email: &str) -> (b: NtfyMsgBuilder)
        ensures
            b.msg@ == (MsgView { email: Some(email@), ..self.msg@ }),
    {
        let mut b = self;
        b.msg.email = Some(email.to_owned());
        b
    }

    /// The finished message.
    pub fn build(self) -> (m: NtfyMsg)
        ensures
            m == self.msg,
    {
        self.msg
    }
}

} // verus!
