//! Reaction bindings: "reacting with emoji E on message M in tenant T grants
//! role R", and the table that holds them, one binding per role.

use vstd::prelude::*;

verus! {

/// How an emoji is told apart: a custom emoji by its numeric id, a standard
/// emoji by its literal text.
#[derive(Debug)]
pub enum EmojiKey {
    Custom(u64),
    Unicode(String),
}

pub enum EmojiKeyView {
    Custom(u64),
    Unicode(Seq<char>),
}

impl View for EmojiKey {
    type V = EmojiKeyView;

    open spec fn view(&self) -> EmojiKeyView {
        match self {
            EmojiKey::Custom(id) => EmojiKeyView::Custom(*id),
            EmojiKey::Unicode(s) => EmojiKeyView::Unicode(s@),
        }
    }
}

impl EmojiKey {
    pub fn duplicate(&self) -> (r: EmojiKey)
        ensures
            r@ == self@,
    {
        match self {
            EmojiKey::Custom(id) => EmojiKey::Custom(*id),
            EmojiKey::Unicode(s) => EmojiKey::Unicode(s.clone()),
        }
    }

    /// Whether two keys name the same emoji.
    pub fn same_as(&self, other: &EmojiKey) -> (r: bool)
        ensures
            r == (self@ == other@),
    {
        match (self, other) {
            (EmojiKey::Custom(a), EmojiKey::Custom(b)) => *a == *b,
            (EmojiKey::Unicode(a), EmojiKey::Unicode(b)) => a.eq(b),
            _ => false,
        }
    }
}

/// One stored binding; `role_id` is its key.
#[derive(Debug)]
pub struct ReactionBinding {
    pub role_id: u64,
    pub tenant_id: u64,
    pub message_id: u64,
    pub emoji: EmojiKey,
}

pub struct BindingView {
    pub role_id: u64,
    pub tenant_id: u64,
    pub message_id: u64,
    pub emoji: EmojiKeyView,
}

impl View for ReactionBinding {
    type V = BindingView;

    open spec fn view(&self) -> BindingView {
        BindingView {
            role_id: self.role_id,
            tenant_id: self.tenant_id,
            message_id: self.message_id,
            emoji: self.emoji@,
        }
    }
}

impl ReactionBinding {
    pub fn duplicate(&self) -> (r: ReactionBinding)
        ensures
            r@ == self@,
    {
        ReactionBinding {
            role_id: self.role_id,
            tenant_id: self.tenant_id,
            message_id: self.message_id,
            emoji: self.emoji.duplicate(),
        }
    }
}

/// Whether binding `b` answers a reaction on `(tenant, message, emoji)`.
pub open spec fn answers(b: BindingView, tenant: u64, message: u64, emoji: EmojiKeyView) -> bool {
    b.tenant_id == tenant && b.message_id == message && b.emoji == emoji
}

/// No role is bound twice.
pub open spec fn roles_unique(rows: Seq<BindingView>) -> bool {
    forall|i: int, j: int|
        0 <= i < rows.len() && 0 <= j < rows.len() && #[trigger] rows[i].role_id
            == #[trigger] rows[j].role_id ==> i == j
}

pub open spec fn has_role(rows: Seq<BindingView>, role: u64) -> bool {
    exists|i: int| 0 <= i < rows.len() && #[trigger] rows[i].role_id == role
}

/// The rows after registering `b`: a binding for the same role is replaced
/// in place, whole; otherwise `b` is added at the end.
pub open spec fn upsert(rows: Seq<BindingView>, b: BindingView) -> Seq<BindingView> {
    if has_role(rows, b.role_id) {
        let i = choose|i: int| 0 <= i < rows.len() && #[trigger] rows[i].role_id == b.role_id;
        rows.update(i, b)
    } else {
        rows.push(b)
    }
}

/// Row `i` is the earliest row that answers the reaction.
pub open spec fn first_answer(
    rows: Seq<BindingView>,
    i: int,
    tenant: u64,
    message: u64,
    emoji: EmojiKeyView,
) -> bool {
    &&& 0 <= i < rows.len()
    &&& answers(rows[i], tenant, message, emoji)
    &&& forall|j: int| 0 <= j < i ==> !answers(#[trigger] rows[j], tenant, message, emoji)
}

/// The role a reaction resolves to: that of the earliest row answering it.
pub open spec fn resolve(rows: Seq<BindingView>, tenant: u64, message: u64, emoji: EmojiKeyView) -> Option<u64> {
    if exists|i: int| first_answer(rows, i, tenant, message, emoji) {
        let i = choose|i: int| first_answer(rows, i, tenant, message, emoji);
        Some(rows[i].role_id)
    } else {
        None
    }
}

/// Registering keeps roles unique; afterwards the role is bound exactly
/// to the binding just registered.
pub proof fn lemma_upsert(rows: Seq<BindingView>, b: BindingView)
    requires
        roles_unique(rows),
    ensures
        roles_unique(upsert(rows, b)),
        has_role(upsert(rows, b), b.role_id),
        forall|i: int|
            0 <= i < upsert(rows, b).len() && (#[trigger] upsert(rows, b)[i]).role_id == b.role_id
                ==> upsert(rows, b)[i] == b,
{
    let after = upsert(rows, b);
    if has_role(rows, b.role_id) {
        let k = choose|k: int| 0 <= k < rows.len() && #[trigger] rows[k].role_id == b.role_id;
        assert(after[k] == b);
        assert forall|x: int, y: int|
            0 <= x < after.len() && 0 <= y < after.len() && #[trigger] after[x].role_id
                == #[trigger] after[y].role_id implies x == y by {
            if x != k && y != k {
                assert(rows[x].role_id == rows[y].role_id);
            } else if x == k && y != k {
                assert(rows[y].role_id == rows[k].role_id);
            } else if y == k && x != k {
                assert(rows[x].role_id == rows[k].role_id);
            }
        }
        assert forall|i: int|
            0 <= i < after.len() && (#[trigger] after[i]).role_id == b.role_id implies after[i] == b by {
            if i != k {
                assert(rows[i].role_id == rows[k].role_id);
            }
        }
    } else {
        let n = rows.len() as int;
        assert(after[n] == b);
        assert forall|x: int, y: int|
            0 <= x < after.len() && 0 <= y < after.len() && #[trigger] after[x].role_id
                == #[trigger] after[y].role_id implies x == y by {
            if x < n && y < n {
                assert(rows[x].role_id == rows[y].role_id);
            } else if x < n {
                assert(rows[x].role_id == b.role_id);
            } else if y < n {
                assert(rows[y].role_id == b.role_id);
            }
        }
        assert forall|i: int|
            0 <= i < after.len() && (#[trigger] after[i]).role_id == b.role_id implies after[i] == b by {
            if i < n {
                assert(rows[i].role_id == b.role_id);
            }
        }
    }
}

/// Re-registering a role replaces its binding whole: one binding remains
/// for the role, the new one; no reaction but the new one resolves to the
/// role; and the new one does, unless another role answers it too.
pub proof fn lemma_rebinding_replaces(rows: Seq<BindingView>, first: BindingView, second: BindingView)
    requires
        roles_unique(rows),
        first.role_id == second.role_id,
    ensures
        ({
            let after = upsert(upsert(rows, first), second);
            &&& roles_unique(after)
            &&& has_role(after, second.role_id)
            &&& forall|i: int|
                0 <= i < after.len() && (#[trigger] after[i]).role_id == second.role_id ==> after[i]
                    == second
            &&& forall|t: u64, m: u64, e: EmojiKeyView|
                #[trigger] resolve(after, t, m, e) == Some(second.role_id) ==> answers(second, t, m, e)
            &&& (forall|i: int|
                0 <= i < after.len() && (#[trigger] after[i]).role_id != second.role_id
                    ==> !answers(after[i], second.tenant_id, second.message_id, second.emoji))
                ==> resolve(after, second.tenant_id, second.message_id, second.emoji) == Some(
                second.role_id,
            )
        }),
{
    let mid = upsert(rows, first);
    lemma_upsert(rows, first);
    lemma_upsert(mid, second);
    let after = upsert(mid, second);
    assert forall|t: u64, m: u64, e: EmojiKeyView|
        #[trigger] resolve(after, t, m, e) == Some(second.role_id) implies answers(second, t, m, e) by {
        let i = choose|i: int| first_answer(after, i, t, m, e);
        assert(after[i].role_id == second.role_id);
    }
    if forall|i: int|
        0 <= i < after.len() && (#[trigger] after[i]).role_id != second.role_id ==> !answers(
            after[i],
            second.tenant_id,
            second.message_id,
            second.emoji,
        ) {
        let k = choose|k: int| 0 <= k < after.len() && #[trigger] after[k].role_id == second.role_id;
        assert(after[k] == second);
        assert forall|j: int| 0 <= j < k implies !answers(
            #[trigger] after[j],
            second.tenant_id,
            second.message_id,
            second.emoji,
        ) by {
            if after[j].role_id == second.role_id {
                assert(j == k);
            }
        }
        assert(first_answer(after, k, second.tenant_id, second.message_id, second.emoji));
        let c = choose|c: int| first_answer(after, c, second.tenant_id, second.message_id, second.emoji);
        if c != k {
            assert(after[c].role_id == second.role_id);
        }
    }
}

/// An in-memory binding table, in registration order.
pub struct BindingTable {
    rows: Vec<ReactionBinding>,
}

impl View for BindingTable {
    type V = Seq<BindingView>;

    closed spec fn view(&self) -> Seq<BindingView> {
        self.rows@.map_values(|b: ReactionBinding| b@)
    }
}

impl BindingTable {
    pub open spec fn wf(&self) -> bool {
        roles_unique(self@)
    }

    pub fn new() -> (r: BindingTable)
        ensures
            r@ == Seq::<BindingView>::empty(),
            r.wf(),
    {
        let r = BindingTable { rows: Vec::new() };
        assert(r@ =~= Seq::<BindingView>::empty());
        r
    }

    pub fn len(&self) -> (r: usize)
        ensures
            r == self@.len(),
    {
        self.rows.len()
    }

    /// The binding at position `i`.
    pub fn get(&self, i: usize) -> (r: &ReactionBinding)
        requires
            i < self@.len(),
        ensures
            r@ == self@[i as int],
    {
        &self.rows[i]
    }

    /// Registers `b`, replacing whatever was bound to the same role.
    pub fn register(&mut self, b: ReactionBinding)
        requires
            old(self).wf(),
        ensures
            final(self).wf(),
            final(self)@ == upsert(old(self)@, b@),
    {
        let ghost before = self@;
        let n = self.rows.len();
        let mut i: usize = 0;
        while i < n
            invariant
                n == self.rows@.len(),
                i <= n,
                self@ == before,
                before == old(self)@,
                roles_unique(before),
                forall|j: int| 0 <= j < i ==> (#[trigger] before[j]).role_id != b.role_id,
            decreases n - i,
        {
            if self.rows[i].role_id == b.role_id {
                let ghost bv = b@;
                proof {
                    assert(before[i as int].role_id == bv.role_id);
                    assert(has_role(before, bv.role_id));
                    let k = choose|k: int| 0 <= k < before.len() && #[trigger] before[k].role_id == bv.role_id;
                    assert(k == i);
                }
                self.rows.set(i, b);
                assert(self@ =~= before.update(i as int, bv));
                assert(self@ == upsert(before, bv));
                assert(roles_unique(self@)) by {
                    assert forall|x: int, y: int|
                        0 <= x < self@.len() && 0 <= y < self@.len() && #[trigger] self@[x].role_id
                            == #[trigger] self@[y].role_id implies x == y by {
                        if x != i && y != i {
                            assert(before[x].role_id == before[y].role_id);
                        } else if x == i && y != i {
                            assert(before[y].role_id == before[i as int].role_id);
                        } else if y == i && x != i {
                            assert(before[x].role_id == before[i as int].role_id);
                        }
                    }
                }
                return;
            }
            i = i + 1;
        }
        let ghost bv = b@;
        self.rows.push(b);
        assert(self@ =~= before.push(bv));
        assert(!has_role(before, bv.role_id));
        assert(roles_unique(self@)) by {
            assert forall|x: int, y: int|
                0 <= x < self@.len() && 0 <= y < self@.len() && #[trigger] self@[x].role_id
                    == #[trigger] self@[y].role_id implies x == y by {
                if x < before.len() && y < before.len() {
                    assert(before[x].role_id == before[y].role_id);
                } else if x < before.len() {
                    assert(before[x].role_id == bv.role_id);
                } else if y < before.len() {
                    assert(before[y].role_id == bv.role_id);
                }
            }
        }
    }

    /// The role bound to a reaction on `(tenant, message, emoji)`, if any.
    pub fn lookup(&self, tenant: u64, message: u64, emoji: &EmojiKey) -> (r: Option<u64>)
        ensures
            r == resolve(self@, tenant, message, emoji@),
    {
        let n = self.rows.len();
        let mut i: usize = 0;
        while i < n
            invariant
                n == self@.len(),
                i <= n,
                forall|j: int| 0 <= j < i ==> !answers(#[trigger] self@[j], tenant, message, emoji@),
            decreases n - i,
        {
            let row = &self.rows[i];
            if row.tenant_id == tenant && row.message_id == message && row.emoji.same_as(emoji) {
                proof {
                    assert(first_answer(self@, i as int, tenant, message, emoji@));
                    let k = choose|k: int| first_answer(self@, k, tenant, message, emoji@);
                    if k < i {
                        assert(!answers(self@[k], tenant, message, emoji@));
                    } else if k > i {
                        assert(!answers(self@[i as int], tenant, message, emoji@));
                    }
                }
                return Some(row.role_id);
            }
            i = i + 1;
        }
        None
    }
}

} // verus!
