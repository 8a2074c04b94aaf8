//! The key scheme of the per-guild configuration in the key-value store, the
//! writes that the configuration layer asks of the store, and a model of what
//! the store holds.

use vstd::prelude::*;
use crate::text::{decimal, decimal_text, parse_unsigned};
use crate::tokenizer::texts;

verus! {

/// `server:{guild}:settings:{setting}`
pub open spec fn setting_key_text(server: u64, setting: Seq<char>) -> Seq<char> {
    "server:"@ + decimal_text(server as nat) + ":settings:"@ + setting
}

/// `server:{guild}:modules:{module}:enabled`
pub open spec fn module_key_text(server: u64, module: Seq<char>) -> Seq<char> {
    "server:"@ + decimal_text(server as nat) + ":modules:"@ + module + ":enabled"@
}

pub fn setting_key(server: u64, setting: &str) -> (r: String)
    ensures
        r@ == setting_key_text(server, setting@),
{
    let mut key = String::from_str("server:");
    let id = decimal(server);
    key.append(id.as_str());
    key.append(":settings:");
    key.append(setting);
    key
}

pub fn module_enabled_key(server: u64, module: &str) -> (r: String)
    ensures
        r@ == module_key_text(server, module@),
{
    let mut key = String::from_str("server:");
    let id = decimal(server);
    key.append(id.as_str());
    key.append(":modules:");
    key.append(module);
    key.append(":enabled");
    key
}

/// A write to the store.
pub enum StoreOp {
    /// Stores a text under a key, in place of what was there.
    Write(String, String),
    /// Removes a key and what it holds.
    Delete(String),
    /// Appends an element to the list under a key, making the list where
    /// there is none.
    Push(String, String),
    /// Makes the list under a key hold exactly the given elements, in order,
    /// in one atomic step; an empty list removes the key.
    Replace(String, Vec<String>),
}

/// A write to the store, in terms of characters.
pub enum OpView {
    Write(Seq<char>, Seq<char>),
    Delete(Seq<char>),
    Push(Seq<char>, Seq<char>),
    Replace(Seq<char>, Seq<Seq<char>>),
}

impl View for StoreOp {
    type V = OpView;

    open spec fn view(&self) -> OpView {
        match self {
            StoreOp::Write(k, v) => OpView::Write(k@, v@),
            StoreOp::Delete(k) => OpView::Delete(k@),
            StoreOp::Push(k, v) => OpView::Push(k@, v@),
            StoreOp::Replace(k, v) => OpView::Replace(k@, texts(v@)),
        }
    }
}

/// What the store holds under a key: a text, or a list of texts.
pub enum Stored {
    Text(Seq<char>),
    List(Seq<Seq<char>>),
}

/// What the store holds, key by key.
pub type StoreState = Map<Seq<char>, Stored>;

/// The list under `key`; a missing key reads as the empty list.
pub open spec fn list_at(st: StoreState, key: Seq<char>) -> Seq<Seq<char>> {
    if st.contains_key(key) && st[key] is List {
        st[key]->List_0
    } else {
        Seq::empty()
    }
}

/// The store after a write. An append to a key that holds a text is
/// refused by the store and changes nothing.
pub open spec fn apply(op: OpView, st: StoreState) -> StoreState {
    match op {
        OpView::Write(k, v) => st.insert(k, Stored::Text(v)),
        OpView::Delete(k) => st.remove(k),
        OpView::Push(k, v) => if st.contains_key(k) && st[k] is Text {
            st
        } else {
            st.insert(k, Stored::List(list_at(st, k).push(v)))
        },
        OpView::Replace(k, v) => if v.len() == 0 {
            st.remove(k)
        } else {
            st.insert(k, Stored::List(v))
        },
    }
}

/// A flag as read from the store as a 32-bit unsigned number; a missing key
/// reads as `None`.
pub open spec fn read_flag(st: StoreState, key: Seq<char>) -> Option<u32> {
    if st.contains_key(key) && st[key] is Text {
        match parse_unsigned(st[key]->Text_0) {
            Some(n) => if n <= u32::MAX {
                Some(n as u32)
            } else {
                None
            },
            None => None,
        }
    } else {
        None
    }
}

} // verus!
