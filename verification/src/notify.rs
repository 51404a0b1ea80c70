//! Desktop notifications, as they are handed to the notification service of
//! the session bus.

use vstd::prelude::*;
use vstd::string::StringExecFns;
use crate::text::same_text;

verus! {

/// When a notification goes away by itself.
#[derive(Debug, Clone, Copy, PartialEq, Eq, Structural)]
pub enum Timeout {
    /// When the notification service sees fit.
    Unspecified,
    Never,
    Millis(u32),
}

impl Timeout {
    /// The number that the notification service takes for the timeout: -1
    /// where it is left open, 0 for never, else the milliseconds, which wrap
    /// round where they exceed what the number can hold.
    pub open spec fn spec_expires(self) -> i32 {
        match self {
            Timeout::Unspecified => -1i32,
            Timeout::Never => 0i32,
            Timeout::Millis(t) => if t <= i32::MAX {
                t as i32
            } else {
                (t - 0x1_0000_0000) as i32
            },
        }
    }

    #[verifier::when_used_as_spec(spec_expires)]
    pub fn expires(self) -> (expires: i32)
        ensures
            expires == self.spec_expires(),
    {
        match self {
            Timeout::Unspecified => -1,
            Timeout::Never => 0,
            Timeout::Millis(t) => if t <= 0x7fff_ffff {
                t as i32
            } else {
                ((t - 0x8000_0000) as i32) - 0x7fff_ffff - 1
            },
        }
    }
}

/// The number under which the notification service knows a notification
/// that it displays.
#[derive(Debug, Clone, Copy, PartialEq, Eq, Structural)]
pub struct NotificationHandle {
    pub id: u32,
}

/// Value of a hint.
#[derive(Debug, Clone, PartialEq, Eq)]
pub enum Hint {
    Text(String),
    Number(i32),
    Flag(bool),
}

/// What a hint holds.
pub enum HintView {
    Text(Seq<char>),
    Number(i32),
    Flag(bool),
}

impl View for Hint {
    type V = HintView;

    open spec fn view(&self) -> HintView {
        match self {
            Hint::Text(text) => HintView::Text(text@),
            Hint::Number(number) => HintView::Number(*number),
            Hint::Flag(flag) => HintView::Flag(*flag),
        }
    }
}

/// A notification.
#[derive(Debug, Clone, PartialEq, Eq)]
pub struct Notification {
    app_name: String,
    replaces: u32,
    icon: String,
    summary: String,
    body: String,
    actions: Vec<String>,
    hints: Vec<(String, Hint)>,
    expires: i32,
}

/// What a notification holds.
pub struct NotificationView {
    pub app_name: Seq<char>,
    /// The notification that this one replaces, or 0.
    pub replaces: u32,
    pub icon: Seq<char>,
    pub summary: Seq<char>,
    pub body: Seq<char>,
    pub actions: Seq<Seq<char>>,
    /// The hints, each key once, in the order in which the keys came.
    pub hints: Seq<(Seq<char>, HintView)>,
    pub expires: i32,
}

/// Place of the first hint with the given key, or the number of hints where
/// there is none.
pub open spec fn hint_index(hints: Seq<(Seq<char>, HintView)>, key: Seq<char>) -> int
    decreases hints.len(),
{
    if hints.len() == 0 {
        0
    } else if hints[0].0 == key {
        0
    } else {
        1 + hint_index(hints.drop_first(), key)
    }
}

/// The hints after `key` is given `value`: a key that is there keeps its
/// place and gets the new value, a new key goes to the end.
pub open spec fn hinted(hints: Seq<(Seq<char>, HintView)>, key: Seq<char>, value: HintView) -> Seq<
    (Seq<char>, HintView),
> {
    let at = hint_index(hints, key);
    if at < hints.len() {
        hints.update(at, (key, value))
    } else {
        hints.push((key, value))
    }
}

/// Where the first hint with a key stands.
proof fn lemma_hint_index(hints: Seq<(Seq<char>, HintView)>, key: Seq<char>, at: int)
    requires
        0 <= at <= hints.len(),
        forall|i: int| 0 <= i < at ==> hints[i].0 != key,
        at < hints.len() ==> hints[at].0 == key,
    ensures
        hint_index(hints, key) == at,
    decreases hints.len(),
{
    if hints.len() > 0 && at > 0 {
        let rest = hints.drop_first();
        lemma_hint_index(rest, key, at - 1);
    }
}

impl NotificationView {
    /// A notification that says nothing yet.
    pub open spec fn blank(app_name: Seq<char>) -> NotificationView {
        NotificationView {
            app_name,
            replaces: 0,
            icon: Seq::empty(),
            summary: Seq::empty(),
            body: Seq::empty(),
            actions: Seq::empty(),
            hints: Seq::empty(),
            expires: -1i32,
        }
    }
}

impl View for Notification {
    type V = NotificationView;

    closed spec fn view(&self) -> NotificationView {
        NotificationView {
            app_name: self.app_name@,
            replaces: self.replaces,
            icon: self.icon@,
            summary: self.summary@,
            body: self.body@,
            actions: Seq::new(self.actions@.len(), |i: int| self.actions@[i]@),
            hints: Seq::new(self.hints@.len(), |i: int| (self.hints@[i].0@, self.hints@[i].1@)),
            expires: self.expires,
        }
    }
}

impl Notification {
    /// Begins a notification of the application `app_name`.
    pub fn create(app_name: &str) -> (builder: NotificationBuilder)
        ensures
            builder@ == NotificationView::blank(app_name@),
    {
        NotificationBuilder { notif: Notification::new(app_name) }
    }

    pub fn new(app_name: &str) -> (notif: Notification)
        ensures
            notif@ == NotificationView::blank(app_name@),
    {
        let notif = Notification {
            app_name: String::from_str(app_name),
            replaces: 0,
            icon: String::new(),
            summary: String::new(),
            body: String::new(),
            actions: Vec::new(),
            hints: Vec::new(),
            expires: -1,
        };
        assert(notif@.actions =~= Seq::empty());
        assert(notif@.hints =~= Seq::empty());
        notif
    }

    pub fn set_replaces(&mut self, id: u32)
        ensures
            final(self)@ == (NotificationView { replaces: id, ..old(self)@ }),
    {
        self.replaces = id;
    }

    pub fn set_icon(&mut self, icon: &str)
        ensures
            final(self)@ == (NotificationView { icon: icon@, ..old(self)@ }),
    {
        self.icon = String::from_str(icon);
    }

    pub fn set_summary(&mut self, summary: &str)
        ensures
            final(self)@ == (NotificationView { summary: summary@, ..old(self)@ }),
    {
        self.summary = String::from_str(summary);
    }

    pub fn set_body(&mut self, body: &str)
        ensures
            final(self)@ == (NotificationView { body: body@, ..old(self)@ }),
    {
        self.body = String::from_str(body);
    }

    /// Gives the hint `key` a text for its value.
    pub fn add_hint_s(&mut self, key: &str, value: &str)
        ensures
            final(self)@ == (NotificationView {
                hints: hinted(old(self)@.hints, key@, HintView::Text(value@)),
                ..old(self)@
            }),
    {
        self.add_hint(key, Hint::Text(String::from_str(value)));
    }

    /// Gives the hint `key` a value.
    pub fn add_hint(&mut self, key: &str, value: Hint)
        ensures
            final(self)@ == (NotificationView {
                hints: hinted(old(self)@.hints, key@, value@),
                ..old(self)@
            }),
    {
        let ghost before = self@.hints;
        let n = self.hints.len();
        let mut at: usize = 0;
        while at < n
            invariant
                at <= n,
                n == self.hints@.len(),
                self@ == old(self)@,
                before == self@.hints,
                forall|i: int| 0 <= i < at ==> before[i].0 != key@,
            ensures
                at <= n,
                forall|i: int| 0 <= i < at ==> before[i].0 != key@,
                at < n ==> before[at as int].0 == key@,
            decreases n - at,
        {
            if same_text(self.hints[at].0.as_str(), key) {
                break ;
            }
            at += 1;
        }
        proof {
            lemma_hint_index(before, key@, at as int);
        }
        let entry = (String::from_str(key), value);
        if at < n {
            self.hints.set(at, entry);
        } else {
            self.hints.push(entry);
        }
        assert(self@.hints =~= hinted(before, key@, value@));
    }

    pub fn set_expires(&mut self, timeout: Timeout)
        ensures
            final(self)@ == (NotificationView { expires: timeout.spec_expires(), ..old(self)@ }),
    {
        self.expires = timeout.expires();
    }

    pub fn app_name(&self) -> (text: &str)
        ensures
            text@ == self@.app_name,
    {
        self.app_name.as_str()
    }

    pub fn replaces(&self) -> (id: u32)
        ensures
            id == self@.replaces,
    {
        self.replaces
    }

    pub fn icon(&self) -> (text: &str)
        ensures
            text@ == self@.icon,
    {
        self.icon.as_str()
    }

    pub fn summary(&self) -> (text: &str)
        ensures
            text@ == self@.summary,
    {
        self.summary.as_str()
    }

    pub fn body(&self) -> (text: &str)
        ensures
            text@ == self@.body,
    {
        self.body.as_str()
    }

    pub fn actions(&self) -> (actions: &Vec<String>)
        ensures
            actions@.len() == self@.actions.len(),
            forall|i: int| 0 <= i < actions@.len() ==> (#[trigger] actions@[i])@ == self@.actions[i],
    {
        &self.actions
    }

    pub fn hints(&self) -> (hints: &Vec<(String, Hint)>)
        ensures
            hints@.len() == self@.hints.len(),
            forall|i: int|
                0 <= i < hints@.len() ==> ((#[trigger] hints@[i]).0@, hints@[i].1@)
                    == self@.hints[i],
    {
        &self.hints
    }

    pub fn expires(&self) -> (expires: i32)
        ensures
            expires == self@.expires,
    {
        self.expires
    }
}

/// A notification in the making.
#[derive(Debug)]
pub struct NotificationBuilder {
    notif: Notification,
}

impl View for NotificationBuilder {
    type V = NotificationView;

    closed spec fn view(&self) -> NotificationView {
        self.notif@
    }
}

impl NotificationBuilder {
    pub fn build(self) -> (notif: Notification)
        ensures
            notif@ == self@,
    {
        self.notif
    }

    pub fn replaces(self, id: u32) -> (builder: NotificationBuilder)
        ensures
            builder@ == (NotificationView { replaces: id, ..self@ }),
    {
        let mut builder = self;
        builder.notif.set_replaces(id);
        builder
    }

    pub fn icon(self, icon: &str) -> (builder: NotificationBuilder)
        ensures
            builder@ == (NotificationView { icon: icon@, ..self@ }),
    {
        let mut builder = self;
        builder.notif.set_icon(icon);
        builder
    }

    pub fn summary(self, summary: &str) -> (builder: NotificationBuilder)
        ensures
            builder@ == (NotificationView { summary: summary@, ..self@ }),
    {
        let mut builder = self;
        builder.notif.set_summary(summary);
        builder
    }

    pub fn body(self, body: &str) -> (builder: NotificationBuilder)
        ensures
            builder@ == (NotificationView { body: body@, ..self@ }),
    {
        let mut builder = self;
        builder.notif.set_body(body);
        builder
    }

    pub fn hint_s(self, key: &str, value: &str) -> (builder: NotificationBuilder)
        ensures
            builder@ == (NotificationView {
                hints: hinted(self@.hints, key@, HintView::Text(value@)),
                ..self@
            }),
    {
        let mut builder = self;
        builder.notif.add_hint_s(key, value);
        builder
    }

    pub fn hint(self, key: &str, value: Hint) -> (builder: NotificationBuilder)
        ensures
            builder@ == (NotificationView { hints: hinted(self@.hints, key@, value@), ..self@ }),
    {
        let mut builder = self;
        builder.notif.add_hint(key, value);
        builder
    }

    pub fn expires(self, timeout: Timeout) -> (builder: NotificationBuilder)
        ensures
            builder@ == (NotificationView { expires: timeout.spec_expires(), ..self@ }),
    {
        let mut builder = self;
        builder.notif.set_expires(timeout);
        builder
    }
}

} // verus!
