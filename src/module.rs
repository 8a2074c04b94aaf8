//! Modules: named per-guild feature switches, each with a default. The store
//! keeps only a guild's departure from the default.

use vstd::prelude::*;
use crate::store::{apply, module_enabled_key, module_key_text, read_flag, OpView, StoreOp, StoreState};
use crate::text::{digits_value, same_text};

verus! {

/// A module of the catalog: its name, and whether it is enabled where a
/// guild has not said otherwise.
#[derive(Clone, Copy, Debug, PartialEq, Eq)]
pub struct Module {
    pub name: &'static str,
    pub default_enabled: bool,
}

/// The default of the module named `name`, or `None` for a name outside the
/// catalog.
pub open spec fn module_default(name: Seq<char>) -> Option<bool> {
    if name == "admin.log"@ {
        Some(true)
    } else if name == "test"@ {
        Some(false)
    } else if name == "utility.join"@ {
        Some(false)
    } else {
        None
    }
}

/// Looks a module up by its exact name.
pub fn find(name: &str) -> (r: Option<Module>)
    ensures
        r is Some <==> module_default(name@) is Some,
        r matches Some(m) ==> m.name@ == name@ && Some(m.default_enabled) == module_default(
            name@,
        ),
{
    if same_text(name, "admin.log") {
        Some(Module { name: "admin.log", default_enabled: true })
    } else if same_text(name, "test") {
        Some(Module { name: "test", default_enabled: false })
    } else if same_text(name, "utility.join") {
        Some(Module { name: "utility.join", default_enabled: false })
    } else {
        None
    }
}

impl Module {
    /// The key of this module's switch for a guild.
    pub open spec fn key(&self, server: u64) -> Seq<char> {
        module_key_text(server, self.name@)
    }

    /// The write that enables the module: removing the guild's switch where
    /// the module is enabled by default, else storing `1`.
    pub open spec fn enable_op(&self, server: u64) -> OpView {
        if self.default_enabled {
            OpView::Delete(self.key(server))
        } else {
            OpView::Write(self.key(server), "1"@)
        }
    }

    /// The write that disables the module: removing the guild's switch where
    /// the module is disabled by default, else storing `0`.
    pub open spec fn disable_op(&self, server: u64) -> OpView {
        if !self.default_enabled {
            OpView::Delete(self.key(server))
        } else {
            OpView::Write(self.key(server), "0"@)
        }
    }

    /// Whether the module is on, given the guild's switch as read.
    pub open spec fn enabled_given(&self, stored: Option<u32>) -> bool {
        match stored {
            Some(v) => v != 0,
            None => self.default_enabled,
        }
    }

    pub fn enable(&self, server: u64) -> (r: StoreOp)
        ensures
            r@ == self.enable_op(server),
    {
        let key = module_enabled_key(server, self.name);
        if self.default_enabled {
            StoreOp::Delete(key)
        } else {
            let one = String::from_str("1");
            StoreOp::Write(key, one)
        }
    }

    pub fn disable(&self, server: u64) -> (r: StoreOp)
        ensures
            r@ == self.disable_op(server),
    {
        let key = module_enabled_key(server, self.name);
        if !self.default_enabled {
            StoreOp::Delete(key)
        } else {
            let zero = String::from_str("0");
            StoreOp::Write(key, zero)
        }
    }

    pub fn is_enabled(&self, stored: Option<u32>) -> (r: bool)
        ensures
            r == self.enabled_given(stored),
    {
        match stored {
            Some(v) => v != 0,
            None => self.default_enabled,
        }
    }
}

/// A guild's switch reads as what was last written to it, and a guild that
/// never wrote one sees the default. Enabling a module makes it read as
/// enabled, disabling it as disabled, and enabling or disabling it back to
/// its default leaves no switch in the store.
pub proof fn lemma_module_default_semantics(m: Module, server: u64, st: StoreState)
    ensures
        !st.contains_key(m.key(server)) ==> m.enabled_given(read_flag(st, m.key(server)))
            == m.default_enabled,
        m.enabled_given(read_flag(apply(m.enable_op(server), st), m.key(server))),
        !m.enabled_given(read_flag(apply(m.disable_op(server), st), m.key(server))),
        m.default_enabled ==> !apply(m.enable_op(server), st).contains_key(m.key(server)),
        !m.default_enabled ==> !apply(m.disable_op(server), st).contains_key(m.key(server)),
{
    reveal_strlit("1");
    reveal_strlit("0");
    let one = "1"@;
    let zero = "0"@;
    assert(one.len() == 1 && one[0] == '1');
    assert(zero.len() == 1 && zero[0] == '0');
    assert(one.drop_last() =~= Seq::<char>::empty());
    assert(digits_value(Seq::<char>::empty()) == 0);
    assert(zero.drop_last() =~= Seq::<char>::empty());
    assert(digits_value(one) == 1);
    assert(digits_value(zero) == 0);
}

} // verus!
