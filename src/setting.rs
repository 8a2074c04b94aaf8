//! Settings: named, typed per-guild values. Each kind checks and normalizes
//! what is stored, and renders what was stored.

use vstd::prelude::*;
use crate::mention::{digit_run, first_mention_id, mention_id_at, parse_channel, parse_mention};
use crate::store::{apply, list_at, setting_key, setting_key_text, OpView, StoreOp, StoreState, Stored};
use crate::text::{
    debug_list, decimal, decimal_text, is_digit, lemma_decimal_round_trip, lemma_decimal_text,
    list_text_of, parse_u64, parse_unsigned, same_text,
};
use crate::tokenizer::texts;

verus! {

#[derive(Clone, Copy, Debug, PartialEq, Eq, Structural)]
pub enum SettingKind {
    Channel,
    User,
    Role,
    String,
    Integer,
    Array,
}

/// A setting of the catalog: its name and the kind of its values.
#[derive(Clone, Copy, Debug, PartialEq, Eq)]
pub struct Setting {
    pub name: &'static str,
    pub kind: SettingKind,
}

/// The kind of the setting named `name`, or `None` for a name outside the
/// catalog.
pub open spec fn setting_kind(name: Seq<char>) -> Option<SettingKind> {
    if name == "comfort.join.channel"@ {
        Some(SettingKind::Channel)
    } else if name == "comfort.join.message"@ {
        Some(SettingKind::Array)
    } else if name == "test.ary"@ {
        Some(SettingKind::Array)
    } else if name == "test.channel"@ {
        Some(SettingKind::Channel)
    } else if name == "test.int"@ {
        Some(SettingKind::Integer)
    } else if name == "test.role"@ {
        Some(SettingKind::Role)
    } else if name == "test.str"@ {
        Some(SettingKind::String)
    } else if name == "test.user"@ {
        Some(SettingKind::User)
    } else {
        None
    }
}

/// Looks a setting up by its exact name.
pub fn find(name: &str) -> (r: Option<Setting>)
    ensures
        r is Some <==> setting_kind(name@) is Some,
        r matches Some(s) ==> s.name@ == name@ && Some(s.kind) == setting_kind(name@),
{
    if same_text(name, "comfort.join.channel") {
        Some(Setting { name: "comfort.join.channel", kind: SettingKind::Channel })
    } else if same_text(name, "comfort.join.message") {
        Some(Setting { name: "comfort.join.message", kind: SettingKind::Array })
    } else if same_text(name, "test.ary") {
        Some(Setting { name: "test.ary", kind: SettingKind::Array })
    } else if same_text(name, "test.channel") {
        Some(Setting { name: "test.channel", kind: SettingKind::Channel })
    } else if same_text(name, "test.int") {
        Some(Setting { name: "test.int", kind: SettingKind::Integer })
    } else if same_text(name, "test.role") {
        Some(Setting { name: "test.role", kind: SettingKind::Role })
    } else if same_text(name, "test.str") {
        Some(Setting { name: "test.str", kind: SettingKind::String })
    } else if same_text(name, "test.user") {
        Some(Setting { name: "test.user", kind: SettingKind::User })
    } else {
        None
    }
}

/// A value as read from the store.
pub enum Value {
    Text(String),
    List(Vec<String>),
}

impl View for Value {
    type V = Stored;

    open spec fn view(&self) -> Stored {
        match self {
            Value::Text(t) => Stored::Text(t@),
            Value::List(l) => Stored::List(texts(l@)),
        }
    }
}

/// What the store holds under `key`, if anything.
pub open spec fn stored_at(st: StoreState, key: Seq<char>) -> Option<Stored> {
    if st.contains_key(key) {
        Some(st[key])
    } else {
        None
    }
}

/// The number that a text of decimal digits denotes, written in decimal
/// again; `None` where it is no number that fits in 64 bits.
pub open spec fn normalized_number(t: Seq<char>) -> Option<Seq<char>> {
    match parse_unsigned(t) {
        Some(n) => Some(decimal_text(n as nat)),
        None => None,
    }
}

fn normalize_number(t: &str) -> (r: Option<String>)
    ensures
        match normalized_number(t@) {
            Some(d) => r matches Some(s) && s@ == d,
            None => r is None,
        },
{
    match parse_u64(t) {
        Some(n) => Some(decimal(n)),
        None => None,
    }
}

impl Setting {
    /// The key of this setting's value for a guild.
    pub open spec fn key(&self, server: u64) -> Seq<char> {
        setting_key_text(server, self.name@)
    }

    /// How a stored value of this setting is shown: ids in the mention
    /// syntax, texts and numbers as they are, a list in full. A missing
    /// value, an empty list, or a value of the other shape shows as unset.
    pub open spec fn rendered(&self, stored: Option<Stored>) -> Option<Seq<char>> {
        match stored {
            Some(Stored::Text(t)) => match self.kind {
                SettingKind::Channel => Some("<#"@ + t + ">"@),
                SettingKind::User => Some("<@"@ + t + ">"@),
                SettingKind::Role => Some("<@&"@ + t + ">"@),
                SettingKind::String => Some(t),
                SettingKind::Integer => Some(t),
                SettingKind::Array => None,
            },
            Some(Stored::List(l)) => if self.kind == SettingKind::Array && l.len() > 0 {
                Some(list_text_of(l))
            } else {
                None
            },
            None => None,
        }
    }

    /// The write that setting `value` asks for, or `None` where `value` does
    /// not have the form that the kind requires. A list is not set this way:
    /// it is appended to, or replaced as a whole.
    pub open spec fn set_op(&self, server: u64, value: Seq<char>) -> Option<OpView> {
        let id = match self.kind {
            SettingKind::Channel => match first_mention_id(value, 0, true) {
                Some(d) => normalized_number(d),
                None => None,
            },
            SettingKind::User => match first_mention_id(value, 0, false) {
                Some(d) => normalized_number(d),
                None => None,
            },
            SettingKind::Role => match first_mention_id(value, 0, false) {
                Some(d) => normalized_number(d),
                None => None,
            },
            SettingKind::Integer => normalized_number(value),
            SettingKind::String => Some(value),
            SettingKind::Array => None,
        };
        match id {
            Some(v) => Some(OpView::Write(self.key(server), v)),
            None => None,
        }
    }

    /// The write that replaces a list setting's elements by `values`, in one
    /// step; only a list takes one.
    pub open spec fn replace_op(&self, server: u64, values: Seq<Seq<char>>) -> Option<OpView> {
        if self.kind == SettingKind::Array {
            Some(OpView::Replace(self.key(server), values))
        } else {
            None
        }
    }

    /// The write that appending `value` asks for; only a list takes one.
    pub open spec fn push_op(&self, server: u64, value: Seq<char>) -> Option<OpView> {
        if self.kind == SettingKind::Array {
            Some(OpView::Push(self.key(server), value))
        } else {
            None
        }
    }

    /// The write that clears the setting, whatever its kind.
    pub open spec fn clear_op(&self, server: u64) -> OpView {
        OpView::Delete(self.key(server))
    }

    pub fn get(&self, stored: Option<Value>) -> (r: Option<String>)
        ensures
            match self.rendered(
                match stored {
                    Some(v) => Some(v@),
                    None => None,
                },
            ) {
                Some(t) => r matches Some(s) && s@ == t,
                None => r is None,
            },
    {
        match stored {
            Some(Value::Text(t)) => match self.kind {
                SettingKind::Channel => {
                    let mut s = String::from_str("<#");
                    s.append(t.as_str());
                    s.append(">");
                    Some(s)
                },
                SettingKind::User => {
                    let mut s = String::from_str("<@");
                    s.append(t.as_str());
                    s.append(">");
                    Some(s)
                },
                SettingKind::Role => {
                    let mut s = String::from_str("<@&");
                    s.append(t.as_str());
                    s.append(">");
                    Some(s)
                },
                SettingKind::String => Some(t),
                SettingKind::Integer => Some(t),
                SettingKind::Array => None,
            },
            Some(Value::List(l)) => {
                if self.kind == SettingKind::Array && l.len() > 0 {
                    Some(debug_list(&l))
                } else {
                    None
                }
            },
            None => None,
        }
    }

    pub fn set(&self, server: u64, value: &str) -> (r: Option<StoreOp>)
        ensures
            match self.set_op(server, value@) {
                Some(op) => r matches Some(w) && w@ == op,
                None => r is None,
            },
    {
        let id = match self.kind {
            SettingKind::Channel => match parse_channel(value) {
                Some(d) => normalize_number(d.as_str()),
                None => None,
            },
            SettingKind::User => match parse_mention(value) {
                Some(d) => normalize_number(d.as_str()),
                None => None,
            },
            SettingKind::Role => match parse_mention(value) {
                Some(d) => normalize_number(d.as_str()),
                None => None,
            },
            SettingKind::Integer => normalize_number(value),
            SettingKind::String => Some(String::from_str(value)),
            SettingKind::Array => None,
        };
        match id {
            Some(v) => Some(StoreOp::Write(setting_key(server, self.name), v)),
            None => None,
        }
    }

    pub fn replace(&self, server: u64, values: Vec<String>) -> (r: Option<StoreOp>)
        ensures
            match self.replace_op(server, texts(values@)) {
                Some(op) => r matches Some(w) && w@ == op,
                None => r is None,
            },
    {
        if self.kind == SettingKind::Array {
            Some(StoreOp::Replace(setting_key(server, self.name), values))
        } else {
            None
        }
    }

    pub fn push(&self, server: u64, value: &str) -> (r: Option<StoreOp>)
        ensures
            match self.push_op(server, value@) {
                Some(op) => r matches Some(w) && w@ == op,
                None => r is None,
            },
    {
        if self.kind == SettingKind::Array {
            Some(StoreOp::Push(setting_key(server, self.name), String::from_str(value)))
        } else {
            None
        }
    }

    pub fn clear(&self, server: u64) -> (r: StoreOp)
        ensures
            r@ == self.clear_op(server),
    {
        StoreOp::Delete(setting_key(server, self.name))
    }
}

/// Two appends to a list setting leave both elements at its end, in the
/// order they were appended, and reading it back shows the whole list; after
/// a clear it reads as unset.
pub proof fn lemma_array_round_trip(
    s: Setting,
    server: u64,
    st: StoreState,
    first: Seq<char>,
    second: Seq<char>,
)
    requires
        s.kind == SettingKind::Array,
        !(st.contains_key(s.key(server)) && st[s.key(server)] is Text),
    ensures
        ({
            let pushed = apply(
                s.push_op(server, second)->Some_0,
                apply(s.push_op(server, first)->Some_0, st),
            );
            let items = list_at(st, s.key(server)).push(first).push(second);
            &&& list_at(pushed, s.key(server)) == items
            &&& s.rendered(stored_at(pushed, s.key(server))) == Some(list_text_of(items))
            &&& s.rendered(stored_at(apply(s.clear_op(server), pushed), s.key(server))) is None
        }),
{
    let key = s.key(server);
    let once = apply(s.push_op(server, first)->Some_0, st);
    assert(list_at(once, key) == list_at(st, key).push(first));
}

/// `<#{id}>`
pub open spec fn channel_mention_text(id: u64) -> Seq<char> {
    "<#"@ + decimal_text(id as nat) + ">"@
}

proof fn lemma_digit_run_of_mention(v: Seq<char>, d: Seq<char>, k: int)
    requires
        v == "<#"@ + d + ">"@,
        forall|j: int| 0 <= j < d.len() ==> is_digit(#[trigger] d[j]),
        0 <= k <= d.len(),
    ensures
        digit_run(v, 2 + k) == d.len() - k,
    decreases d.len() - k,
{
    reveal_strlit("<#");
    reveal_strlit(">");
    if k < d.len() {
        assert(v[2 + k] == d[k]);
        lemma_digit_run_of_mention(v, d, k + 1);
    } else {
        assert(v[2 + k] == '>');
    }
}

/// A channel mention of any id is accepted by a channel setting, which
/// stores the id, and reading the setting back shows the same mention.
pub proof fn lemma_channel_round_trip(s: Setting, server: u64, id: u64, st: StoreState)
    requires
        s.kind == SettingKind::Channel,
    ensures
        s.set_op(server, channel_mention_text(id)) == Some(
            OpView::Write(s.key(server), decimal_text(id as nat)),
        ),
        s.rendered(
            stored_at(apply(OpView::Write(s.key(server), decimal_text(id as nat)), st), s.key(server)),
        ) == Some(channel_mention_text(id)),
{
    reveal_strlit("<#");
    reveal_strlit(">");
    let d = decimal_text(id as nat);
    let v = channel_mention_text(id);
    lemma_decimal_text(id as nat);
    lemma_decimal_round_trip(id);
    lemma_digit_run_of_mention(v, d, 0);
    assert(v[0] == '<' && v[1] == '#');
    assert(v[2 + d.len() as int] == '>');
    assert(v.subrange(2, 2 + d.len() as int) =~= d);
    assert(mention_id_at(v, 0, true) == Some(d));
    assert(first_mention_id(v, 0, true) == Some(d));
}

} // verus!
