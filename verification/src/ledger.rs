//! The store: every profile and every permission, each kept once.

use vstd::prelude::*;
use crate::model::LedgerView;
use crate::pubkey::Pubkey;
use crate::state::{username_fits, Assistant, AssistantView, Permission};
use crate::table::{
    distinct_keys, holds, lemma_table_at, lemma_table_len, lemma_table_push, lemma_table_update,
    table, Record,
};

verus! {

impl Record for Assistant {
    type Key = Pubkey;

    type Model = AssistantView;

    open spec fn key(&self) -> Pubkey {
        self.owner
    }

    open spec fn model(&self) -> AssistantView {
        self@
    }
}

impl Record for Permission {
    type Key = (Pubkey, Pubkey);

    type Model = Permission;

    open spec fn key(&self) -> (Pubkey, Pubkey) {
        (self.assistant, self.visitor)
    }

    open spec fn model(&self) -> Permission {
        *self
    }
}

/// The keyed storage of profiles and permissions.
///
/// No operation removes a record, and no two records share an address.
#[derive(Debug)]
pub struct Ledger {
    assistants: Vec<Assistant>,
    permissions: Vec<Permission>,
}

/// What the two sequences of a ledger satisfy at every moment.
spec fn consistent(assistants: Seq<Assistant>, permissions: Seq<Permission>) -> bool {
    &&& distinct_keys(assistants)
    &&& distinct_keys(permissions)
    &&& forall|i: int|
        0 <= i < assistants.len() ==> username_fits((#[trigger] assistants[i]).username@)
    &&& forall|i: int|
        0 <= i < permissions.len() ==> table(assistants).dom().contains(
            (#[trigger] permissions[i]).assistant,
        )
}

proof fn lemma_consistent_is_well_formed(assistants: Seq<Assistant>, permissions: Seq<Permission>)
    requires
        consistent(assistants, permissions),
    ensures
        (LedgerView {
            assistants: table(assistants),
            permissions: table(permissions),
        }).well_formed(),
{
    let view = LedgerView { assistants: table(assistants), permissions: table(permissions) };
    lemma_table_len(assistants);
    lemma_table_len(permissions);
    assert forall|owner: Pubkey| #[trigger] view.assistants.dom().contains(owner) implies {
        &&& view.assistants[owner].owner == owner
        &&& username_fits(view.assistants[owner].username)
    } by {
        let i = crate::table::position(assistants, owner);
        lemma_table_at(assistants, i);
    }
    assert forall|assistant: Pubkey, visitor: Pubkey| #[trigger]
        view.permissions.dom().contains((assistant, visitor)) implies {
        &&& view.permissions[(assistant, visitor)].assistant == assistant
        &&& view.permissions[(assistant, visitor)].visitor == visitor
        &&& view.assistants.dom().contains(assistant)
    } by {
        let i = crate::table::position(permissions, (assistant, visitor));
        lemma_table_at(permissions, i);
    }
}

/// Where the profile of `owner` stands in `assistants`, if it is there.
fn find_assistant(assistants: &Vec<Assistant>, owner: &Pubkey) -> (found: Option<usize>)
    ensures
        match found {
            Some(i) => i < assistants.len() && assistants[i as int].owner == *owner,
            None => !holds(assistants@, *owner),
        },
{
    let mut i: usize = 0;
    while i < assistants.len()
        invariant
            i <= assistants.len(),
            forall|j: int| 0 <= j < i ==> (#[trigger] assistants[j]).owner != *owner,
        decreases assistants.len() - i,
    {
        if assistants[i].owner == *owner {
            return Some(i);
        }
        i += 1;
    }
    None
}

/// Where the permission of `visitor` for `assistant` stands in `permissions`,
/// if it is there.
fn find_permission(permissions: &Vec<Permission>, assistant: &Pubkey, visitor: &Pubkey) -> (found:
    Option<usize>)
    ensures
        match found {
            Some(i) => i < permissions.len() && permissions[i as int].assistant == *assistant
                && permissions[i as int].visitor == *visitor,
            None => !holds(permissions@, (*assistant, *visitor)),
        },
{
    let mut i: usize = 0;
    while i < permissions.len()
        invariant
            i <= permissions.len(),
            forall|j: int|
                0 <= j < i ==> (#[trigger] permissions[j]).key() != (*assistant, *visitor),
        decreases permissions.len() - i,
    {
        if permissions[i].assistant == *assistant && permissions[i].visitor == *visitor {
            return Some(i);
        }
        i += 1;
    }
    None
}

impl View for Ledger {
    type V = LedgerView;

    closed spec fn view(&self) -> LedgerView {
        LedgerView { assistants: table(self.assistants@), permissions: table(self.permissions@) }
    }
}

impl Ledger {
    #[verifier::type_invariant]
    pub(crate) closed spec fn inv(self) -> bool {
        consistent(self.assistants@, self.permissions@)
    }

    pub(crate) proof fn lemma_well_formed(self)
        requires
            self.inv(),
        ensures
            self@.well_formed(),
    {
        lemma_consistent_is_well_formed(self.assistants@, self.permissions@);
    }

    /// A ledger with no record.
    pub fn new() -> (ledger: Ledger)
        ensures
            ledger@ == LedgerView::empty(),
            ledger@.well_formed(),
    {
        let ledger = Ledger { assistants: Vec::new(), permissions: Vec::new() };
        proof {
            lemma_consistent_is_well_formed(ledger.assistants@, ledger.permissions@);
            assert(ledger@.assistants =~= Map::empty());
            assert(ledger@.permissions =~= Map::empty());
        }
        ledger
    }

    /// The profile kept under `owner`.
    pub fn assistant(&self, owner: &Pubkey) -> (found: Option<&Assistant>)
        ensures
            self@.well_formed(),
            match found {
                Some(assistant) => self@.assistants.dom().contains(*owner) && assistant@
                    == self@.assistants[*owner],
                None => !self@.assistants.dom().contains(*owner),
            },
    {
        proof {
            use_type_invariant(self);
            lemma_consistent_is_well_formed(self.assistants@, self.permissions@);
        }
        match find_assistant(&self.assistants, owner) {
            Some(i) => {
                proof {
                    lemma_table_at(self.assistants@, i as int);
                }
                Some(&self.assistants[i])
            },
            None => None,
        }
    }

    /// The permission of `visitor` for `assistant`.
    pub fn permission(&self, assistant: &Pubkey, visitor: &Pubkey) -> (found: Option<&Permission>)
        ensures
            self@.well_formed(),
            match found {
                Some(permission) => self@.permissions.dom().contains((*assistant, *visitor))
                    && *permission == self@.permissions[(*assistant, *visitor)],
                None => !self@.permissions.dom().contains((*assistant, *visitor)),
            },
    {
        proof {
            use_type_invariant(self);
            lemma_consistent_is_well_formed(self.assistants@, self.permissions@);
        }
        match find_permission(&self.permissions, assistant, visitor) {
            Some(i) => {
                proof {
                    lemma_table_at(self.permissions@, i as int);
                }
                Some(&self.permissions[i])
            },
            None => None,
        }
    }

    /// Every profile, each once, in no order that callers may rely on.
    pub fn assistants(&self) -> (records: &[Assistant])
        ensures
            self@.well_formed(),
            records@.len() == self@.assistants.dom().len(),
            forall|i: int|
                0 <= i < records@.len() ==> {
                    &&& self@.assistants.dom().contains((#[trigger] records@[i]).owner)
                    &&& self@.assistants[records@[i].owner] == records@[i]@
                },
            forall|i: int, j: int|
                0 <= i < j < records@.len() ==> (#[trigger] records@[i]).owner != (
                #[trigger] records@[j]).owner,
    {
        proof {
            use_type_invariant(self);
            self.lemma_well_formed();
            lemma_table_len(self.assistants@);
            assert forall|i: int| 0 <= i < self.assistants@.len() implies {
                &&& self@.assistants.dom().contains((#[trigger] self.assistants@[i]).owner)
                &&& self@.assistants[self.assistants@[i].owner] == self.assistants@[i]@
            } by {
                lemma_table_at(self.assistants@, i);
            }
        }
        self.assistants.as_slice()
    }

    /// Every permission, each once, in no order that callers may rely on.
    pub fn permissions(&self) -> (records: &[Permission])
        ensures
            self@.well_formed(),
            records@.len() == self@.permissions.dom().len(),
            forall|i: int|
                0 <= i < records@.len() ==> {
                    &&& self@.permissions.dom().contains(
                        ((#[trigger] records@[i]).assistant, records@[i].visitor),
                    )
                    &&& self@.permissions[(records@[i].assistant, records@[i].visitor)]
                        == records@[i]
                },
            forall|i: int, j: int|
                0 <= i < j < records@.len() ==> (#[trigger] records@[i]).assistant != (
                #[trigger] records@[j]).assistant || records@[i].visitor != records@[j].visitor,
    {
        proof {
            use_type_invariant(self);
            self.lemma_well_formed();
            lemma_table_len(self.permissions@);
            assert forall|i: int| 0 <= i < self.permissions@.len() implies {
                &&& self@.permissions.dom().contains(
                    ((#[trigger] self.permissions@[i]).assistant, self.permissions@[i].visitor),
                )
                &&& self@.permissions[(
                    self.permissions@[i].assistant,
                    self.permissions@[i].visitor,
                )] == self.permissions@[i]
            } by {
                lemma_table_at(self.permissions@, i);
            }
            assert forall|i: int, j: int| 0 <= i < j < self.permissions@.len() implies (
            #[trigger] self.permissions@[i]).assistant != (
            #[trigger] self.permissions@[j]).assistant || self.permissions@[i].visitor
                != self.permissions@[j].visitor by {
                assert(self.permissions@[i].key() != self.permissions@[j].key());
            }
        }
        self.permissions.as_slice()
    }

    /// How many profiles are kept.
    pub fn assistant_count(&self) -> (count: usize)
        ensures
            self@.well_formed(),
            count == self@.assistants.dom().len(),
    {
        proof {
            use_type_invariant(self);
            lemma_consistent_is_well_formed(self.assistants@, self.permissions@);
            lemma_table_len(self.assistants@);
        }
        self.assistants.len()
    }

    /// How many permissions are kept.
    pub fn permission_count(&self) -> (count: usize)
        ensures
            self@.well_formed(),
            count == self@.permissions.dom().len(),
    {
        proof {
            use_type_invariant(self);
            lemma_consistent_is_well_formed(self.assistants@, self.permissions@);
            lemma_table_len(self.permissions@);
        }
        self.permissions.len()
    }

    /// Keeps a profile under its owner, in place of the one kept there, if any.
    pub(crate) fn put_assistant(&mut self, assistant: Assistant)
        requires
            username_fits(assistant@.username),
        ensures
            final(self)@ == (LedgerView {
                assistants: old(self)@.assistants.insert(assistant.owner, assistant@),
                ..old(self)@
            }),
            final(self)@.well_formed(),
    {
        proof {
            use_type_invariant(&*self);
        }
        let found = find_assistant(&self.assistants, &assistant.owner);
        let mut permissions: Vec<Permission> = Vec::new();
        core::mem::swap(&mut permissions, &mut self.permissions);
        let mut assistants: Vec<Assistant> = Vec::new();
        core::mem::swap(&mut assistants, &mut self.assistants);
        let ghost before = assistants@;
        match found {
            Some(i) => {
                proof {
                    lemma_table_update(before, i as int, assistant);
                }
                assistants[i] = assistant;
            },
            None => {
                proof {
                    lemma_table_push(before, assistant);
                }
                assistants.push(assistant);
            },
        }
        assert(forall|i: int|
            0 <= i < permissions.len() ==> table(before).dom().contains(
                (#[trigger] permissions[i]).assistant,
            ));
        self.assistants = assistants;
        self.permissions = permissions;
        proof {
            lemma_consistent_is_well_formed(self.assistants@, self.permissions@);
        }
    }

    /// Keeps a permission under its assistant and visitor, in place of the one
    /// kept there, if any.
    pub(crate) fn put_permission(&mut self, permission: Permission)
        requires
            old(self)@.assistants.dom().contains(permission.assistant),
        ensures
            final(self)@ == (LedgerView {
                permissions: old(self)@.permissions.insert(
                    (permission.assistant, permission.visitor),
                    permission,
                ),
                ..old(self)@
            }),
            final(self)@.well_formed(),
    {
        proof {
            use_type_invariant(&*self);
        }
        let found = find_permission(&self.permissions, &permission.assistant, &permission.visitor);
        let mut permissions: Vec<Permission> = Vec::new();
        core::mem::swap(&mut permissions, &mut self.permissions);
        let ghost before = permissions@;
        match found {
            Some(i) => {
                proof {
                    lemma_table_update(before, i as int, permission);
                }
                permissions[i] = permission;
            },
            None => {
                proof {
                    lemma_table_push(before, permission);
                }
                permissions.push(permission);
            },
        }
        self.permissions = permissions;
        proof {
            lemma_consistent_is_well_formed(self.assistants@, self.permissions@);
        }
    }
}

} // verus!
