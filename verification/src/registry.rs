//! The registry of live game servers.
//!
//! A `ServerList` owns the authoritative collection of records, keyed by
//! opaque identifiers that it assigns itself. Its view is the sequence of
//! `(identifier, record)` pairs it holds; the identifiers are distinct,
//! which the type's invariant keeps.

use vstd::prelude::*;
use crate::record::GameServer;

verus! {

/// The identifiers at two different positions always differ.
pub open spec fn ids_distinct(s: Seq<(u128, GameServer)>) -> bool {
    forall|i: int, j: int| 0 <= i < j < s.len() ==> s[i].0 != s[j].0
}

/// Some position holds `id`.
pub open spec fn spec_has_id(s: Seq<(u128, GameServer)>, id: u128) -> bool {
    exists|i: int| 0 <= i < s.len() && s[i].0 == id
}

/// Appending a fresh identifier keeps the identifiers distinct.
pub proof fn lemma_push_distinct(s: Seq<(u128, GameServer)>, id: u128, g: GameServer)
    requires
        ids_distinct(s),
        !spec_has_id(s, id),
    ensures
        ids_distinct(s.push((id, g))),
{
    let s2 = s.push((id, g));
    assert forall|i: int, j: int| 0 <= i < j < s2.len() implies s2[i].0 != s2[j].0 by {
        if j == s.len() {
            assert(s2[i] == s[i]);
            assert(!(0 <= i < s.len() && s[i].0 == id));
        } else {
            assert(s2[i] == s[i] && s2[j] == s[j]);
        }
    }
}

/// Removing a position keeps the identifiers distinct.
pub proof fn lemma_remove_distinct(s: Seq<(u128, GameServer)>, i: int)
    requires
        ids_distinct(s),
        0 <= i < s.len(),
    ensures
        ids_distinct(s.remove(i)),
{
    let s2 = s.remove(i);
    assert forall|p: int, q: int| 0 <= p < q < s2.len() implies s2[p].0 != s2[q].0 by {
        let p0 = if p < i {
            p
        } else {
            p + 1
        };
        let q0 = if q < i {
            q
        } else {
            q + 1
        };
        assert(s2[p] == s[p0] && s2[q] == s[q0]);
    }
}

/// Removing the position that holds `id` eliminates `id` altogether, the
/// identifiers being distinct.
pub proof fn lemma_remove_eliminates_id(s: Seq<(u128, GameServer)>, i: int)
    requires
        ids_distinct(s),
        0 <= i < s.len(),
    ensures
        !spec_has_id(s.remove(i), s[i].0),
{
    let s2 = s.remove(i);
    assert forall|j: int| 0 <= j < s2.len() implies s2[j].0 != s[i].0 by {
        let j0 = if j < i {
            j
        } else {
            j + 1
        };
        assert(s2[j] == s[j0]);
    }
}

/// Replacing the record at a position, identifier kept, keeps the
/// identifiers distinct.
pub proof fn lemma_update_distinct(s: Seq<(u128, GameServer)>, i: int, g: GameServer)
    requires
        ids_distinct(s),
        0 <= i < s.len(),
    ensures
        ids_distinct(s.update(i, (s[i].0, g))),
{
    let s2 = s.update(i, (s[i].0, g));
    assert forall|p: int, q: int| 0 <= p < q < s2.len() implies s2[p].0 != s2[q].0 by {
        assert(s2[p].0 == s[p].0 && s2[q].0 == s[q].0);
    }
}

/// Relies on `uuid::Uuid::new_v4` (read through `Uuid::as_u128`): a freshly
/// drawn random 128-bit identifier. Nothing is promised of the draw; the
/// caller checks it against the registry's contents.
#[verifier::external_body]
fn random_id() -> (r: u128) {
    uuid::Uuid::new_v4().as_u128()
}

/// Among the candidates `0 ..= n` there is an identifier that no position
/// holds, as soon as there are more candidates than positions.
pub proof fn lemma_exists_free_id(s: Seq<(u128, GameServer)>, n: u128)
    requires
        s.len() <= n,
    ensures
        exists|c: u128| c <= n && !spec_has_id(s, c),
    decreases s.len(),
{
    if s.len() == 0 {
        assert(!spec_has_id(s, 0u128));
    } else if !spec_has_id(s, n) {
    } else {
        let i = choose|i: int| 0 <= i < s.len() && s[i].0 == n;
        let s2 = s.remove(i);
        lemma_exists_free_id(s2, (n - 1) as u128);
        let c = choose|c: u128| c <= n - 1 && !spec_has_id(s2, c);
        assert(!spec_has_id(s, c)) by {
            if spec_has_id(s, c) {
                let j = choose|j: int| 0 <= j < s.len() && s[j].0 == c;
                if j < i {
                    assert(s2[j] == s[j]);
                } else {
                    assert(s2[j - 1] == s[j]);
                }
            }
        }
    }
}

/// The query parameters of a snapshot read: skip `offset` records, then
/// return at most `limit`. A missing bound defaults to skipping nothing
/// and returning everything.
pub struct Pagination {
    pub offset: Option<usize>,
    pub limit: Option<usize>,
}

impl Default for Pagination {
    /// No offset and no limit.
    fn default() -> (r: Self)
        ensures
            r.offset is None,
            r.limit is None,
    {
        Pagination { offset: None, limit: None }
    }
}

/// The offset a pagination request asks for.
pub open spec fn spec_offset(p: Pagination) -> int {
    match p.offset {
        Some(n) => n as int,
        None => 0,
    }
}

/// The bound a pagination request puts on the page.
pub open spec fn spec_limit(p: Pagination) -> int {
    match p.limit {
        Some(n) => n as int,
        None => usize::MAX as int,
    }
}

/// The page of `s` a pagination request selects: what is left after
/// skipping `offset` records, clipped to `limit`.
pub open spec fn spec_page(s: Seq<GameServer>, offset: int, limit: int) -> Seq<GameServer>
    recommends
        offset >= 0,
        limit >= 0,
{
    let lo = if offset > s.len() {
        s.len() as int
    } else {
        offset
    };
    let hi = if lo + limit > s.len() {
        s.len() as int
    } else {
        lo + limit
    };
    s.subrange(lo, hi)
}

/// The records of the registry's view, in order, identifiers dropped.
pub open spec fn spec_records(s: Seq<(u128, GameServer)>) -> Seq<GameServer> {
    s.map_values(|e: (u128, GameServer)| e.1)
}

/// The registry. It is the sole assigner of identifiers and never holds
/// two records under one identifier.
pub struct ServerList {
    servers: Vec<(u128, GameServer)>,
}

impl View for ServerList {
    type V = Seq<(u128, GameServer)>;

    closed spec fn view(&self) -> Seq<(u128, GameServer)> {
        self.servers@
    }
}

impl ServerList {
    /// Well-formedness: the identifiers in the registry are distinct.
    /// `new` establishes it and every mutating operation keeps it.
    pub open spec fn wf(self) -> bool {
        ids_distinct(self@)
    }

    /// An empty registry.
    pub fn new() -> (r: ServerList)
        ensures
            r@.len() == 0,
            r.wf(),
    {
        ServerList { servers: Vec::new() }
    }

    /// Whether some record is held under `id`.
    fn contains_id(&self, id: u128) -> (r: bool)
        ensures
            r == spec_has_id(self@, id),
    {
        let mut i: usize = 0;
        while i < self.servers.len()
            invariant
                0 <= i <= self.servers.len(),
                forall|j: int| 0 <= j < i ==> self.servers@[j].0 != id,
            decreases self.servers.len() - i,
        {
            if self.servers[i].0 == id {
                assert(spec_has_id(self@, id));
                return true;
            }
            i += 1;
        }
        false
    }

    /// The position that holds `id`, if any.
    fn index_of(&self, id: u128) -> (r: Option<usize>)
        ensures
            r is Some <==> spec_has_id(self@, id),
            r matches Some(i) ==> 0 <= i < self@.len() && self@[i as int].0 == id,
    {
        let mut i: usize = 0;
        while i < self.servers.len()
            invariant
                0 <= i <= self.servers.len(),
                forall|j: int| 0 <= j < i ==> self.servers@[j].0 != id,
            decreases self.servers.len() - i,
        {
            if self.servers[i].0 == id {
                assert(spec_has_id(self@, id));
                return Some(i);
            }
            i += 1;
        }
        None
    }

    /// The smallest identifier that no position holds; the deterministic
    /// fallback when random draws keep colliding.
    fn first_free_id(&self) -> (id: u128)
        ensures
            !spec_has_id(self@, id),
    {
        let n = self.servers.len();
        proof {
            lemma_exists_free_id(self@, n as u128);
        }
        let ghost f = choose|c: u128| c <= n as u128 && !spec_has_id(self@, c);
        let mut c: u128 = 0;
        while self.contains_id(c)
            invariant
                !spec_has_id(self@, f),
                c <= f,
            decreases f - c,
        {
            proof {
                assert(c != f);
            }
            c = c + 1;
        }
        c
    }

    /// Store a record under a freshly drawn identifier and return the
    /// identifier. A draw that collides with a held identifier is thrown
    /// away and drawn again, so no record is ever overwritten.
    pub fn add(&mut self, server: GameServer) -> (id: u128)
        requires
            old(self).wf(),
        ensures
            !spec_has_id(old(self)@, id),
            final(self)@ == old(self)@.push((id, server)),
            final(self).wf(),
    {
        let mut id = random_id();
        let mut attempts: usize = 16;
        while attempts > 0 && self.contains_id(id)
            invariant
                self@ == old(self)@,
            decreases attempts,
        {
            id = random_id();
            attempts -= 1;
        }
        if self.contains_id(id) {
            id = self.first_free_id();
        }
        proof {
            lemma_push_distinct(self@, id, server);
        }
        self.servers.push((id, server));
        id
    }

    /// Delete and return the record under `server_id`. An identifier that
    /// is not held leaves the registry unchanged and signals the absence;
    /// that is no error. A held identifier is gone entirely afterwards.
    pub fn remove(&mut self, server_id: &u128) -> (r: Option<GameServer>)
        requires
            old(self).wf(),
        ensures
            !spec_has_id(old(self)@, *server_id) ==> r is None && final(self)@ == old(self)@,
            spec_has_id(old(self)@, *server_id) ==> (exists|i: int|
                0 <= i < old(self)@.len() && old(self)@[i].0 == *server_id && final(self)@ == old(
                    self,
                )@.remove(i) && r == Some(old(self)@[i].1)),
            !spec_has_id(final(self)@, *server_id),
            final(self)@.len() == if spec_has_id(old(self)@, *server_id) {
                old(self)@.len() - 1
            } else {
                old(self)@.len() as int
            },
            final(self).wf(),
    {
        match self.index_of(*server_id) {
            Some(i) => {
                proof {
                    lemma_remove_distinct(self@, i as int);
                    lemma_remove_eliminates_id(self@, i as int);
                }
                let entry = self.servers.remove(i);
                Some(entry.1)
            },
            None => None,
        }
    }

    /// The number of records held.
    pub fn len(&self) -> (r: usize)
        ensures
            r == self@.len(),
    {
        self.servers.len()
    }

    /// Whether no record is held.
    pub fn is_empty(&self) -> (r: bool)
        ensures
            r == (self@.len() == 0),
    {
        self.servers.len() == 0
    }

    /// Rewrite the player count of the record under `server_id` and hand
    /// back the count it replaced; an identifier that is not held changes
    /// nothing and yields `None`.
    pub fn set_players(&mut self, server_id: &u128, players: u32) -> (r: Option<u32>)
        requires
            old(self).wf(),
        ensures
            final(self).wf(),
            r is Some <==> spec_has_id(old(self)@, *server_id),
            r is None ==> final(self)@ == old(self)@,
            r matches Some(before) ==> (exists|i: int|
                0 <= i < old(self)@.len() && (#[trigger] old(self)@[i]).0 == *server_id && before
                    == old(self)@[i].1.players && final(self)@ == old(self)@.update(
                    i,
                    (*server_id, (GameServer { players, ..old(self)@[i].1 })),
                )),
    {
        match self.index_of(*server_id) {
            Some(i) => {
                let entry = self.servers.remove(i);
                let before = entry.1.players;
                let updated = entry.1.with_players(players);
                proof {
                    lemma_update_distinct(old(self)@, i as int, updated);
                }
                self.servers.insert(i, (entry.0, updated));
                assert(self@ =~= old(self)@.update(i as int, (entry.0, updated)));
                Some(before)
            },
            None => None,
        }
    }

    /// Apply a mutation to the record under `server_id`, if any; an
    /// identifier that is not held is a no-op and in particular never
    /// creates a record. The identifier itself is never changed.
    pub fn update<F: FnOnce(GameServer) -> GameServer>(&mut self, server_id: &u128, func: F)
        requires
            old(self).wf(),
            forall|g: GameServer| call_requires(func, (g,)),
        ensures
            !spec_has_id(old(self)@, *server_id) ==> final(self)@ == old(self)@,
            spec_has_id(old(self)@, *server_id) ==> (exists|i: int, g2: GameServer|
                0 <= i < old(self)@.len() && old(self)@[i].0 == *server_id && call_ensures(
                    func,
                    (old(self)@[i].1,),
                    g2,
                ) && final(self)@ == old(self)@.update(i, (*server_id, g2))),
            final(self).wf(),
    {
        match self.index_of(*server_id) {
            Some(i) => {
                let entry = self.servers.remove(i);
                let updated = func(entry.1);
                proof {
                    lemma_update_distinct(old(self)@, i as int, updated);
                }
                self.servers.insert(i, (entry.0, updated));
                assert(self@ =~= old(self)@.update(i as int, (entry.0, updated)));
                assert(self@ == old(self)@.update(i as int, (*server_id, updated)));
            },
            None => {},
        }
    }

    /// A defensive copy of the page the pagination request selects from
    /// the current contents: never more than `limit` records, and never
    /// fewer than are there to fill the page.
    pub fn get(&self, pagination: &Pagination) -> (r: Vec<GameServer>)
        ensures
            r@ == spec_page(spec_records(self@), spec_offset(*pagination), spec_limit(*pagination)),
            r@.len() <= spec_limit(*pagination),
            r@.len() == vstd::math::min(
                spec_limit(*pagination),
                vstd::math::max(self@.len() - spec_offset(*pagination), 0),
            ),
    {
        let offset = pagination.offset.unwrap_or(0);
        let limit = pagination.limit.unwrap_or(usize::MAX);
        let n = self.servers.len();
        let lo = if offset > n {
            n
        } else {
            offset
        };
        let mut r: Vec<GameServer> = Vec::new();
        let mut i: usize = lo;
        while i < n && r.len() < limit
            invariant
                lo <= i <= n,
                n == self@.len(),
                i - lo == r.len(),
                r.len() <= limit,
                r@ == spec_records(self@).subrange(lo as int, i as int),
            decreases n - i,
        {
            assert(spec_records(self@)[i as int] == self@[i as int].1);
            r.push(self.servers[i].1.clone());
            assert(r@ =~= spec_records(self@).subrange(lo as int, i + 1));
            i += 1;
        }
        proof {
            let page = spec_page(
                spec_records(self@),
                spec_offset(*pagination),
                spec_limit(*pagination),
            );
            assert(r@ =~= page);
        }
        r
    }
}

impl Default for ServerList {
    /// An empty registry.
    fn default() -> (r: Self)
        ensures
            r@.len() == 0,
            r.wf(),
    {
        Self::new()
    }
}

/// One mutation of the registry's contents: an insert of a record under an
/// identifier, or a removal by identifier.
pub enum RegistryOp {
    Insert { id: u128, server: GameServer },
    Remove { id: u128 },
}

/// What one operation does to the contents: an insert appends its record; a
/// removal deletes the position that holds its identifier, if one does.
pub open spec fn apply_op(s: Seq<(u128, GameServer)>, op: RegistryOp) -> Seq<(u128, GameServer)> {
    match op {
        RegistryOp::Insert { id, server } => s.push((id, server)),
        RegistryOp::Remove { id } => if spec_has_id(s, id) {
            s.remove(choose|i: int| 0 <= i < s.len() && s[i].0 == id)
        } else {
            s
        },
    }
}

/// The contents after a whole sequence of operations, first to last.
pub open spec fn apply_ops(s: Seq<(u128, GameServer)>, ops: Seq<RegistryOp>) -> Seq<
    (u128, GameServer),
>
    decreases ops.len(),
{
    if ops.len() == 0 {
        s
    } else {
        apply_ops(apply_op(s, ops[0]), ops.drop_first())
    }
}

/// How many of the operations are inserts.
pub open spec fn insert_count(ops: Seq<RegistryOp>) -> int
    decreases ops.len(),
{
    if ops.len() == 0 {
        0int
    } else {
        (if ops[0] is Insert {
            1int
        } else {
            0int
        }) + insert_count(ops.drop_first())
    }
}

/// How many of the operations are removals that find their identifier in
/// the contents of their moment.
pub open spec fn successful_remove_count(s: Seq<(u128, GameServer)>, ops: Seq<RegistryOp>) -> int
    decreases ops.len(),
{
    if ops.len() == 0 {
        0int
    } else {
        (if ops[0] matches RegistryOp::Remove { id } && spec_has_id(s, id) {
            1int
        } else {
            0int
        }) + successful_remove_count(apply_op(s, ops[0]), ops.drop_first())
    }
}

/// Law: however inserts and removals interleave, the size of the contents
/// ends at its starting value, plus the inserts, minus the removals that
/// found their identifier.
pub proof fn lemma_size_after_ops(s: Seq<(u128, GameServer)>, ops: Seq<RegistryOp>)
    ensures
        apply_ops(s, ops).len() == s.len() + insert_count(ops) - successful_remove_count(s, ops),
    decreases ops.len(),
{
    if ops.len() > 0 {
        let s1 = apply_op(s, ops[0]);
        match ops[0] {
            RegistryOp::Insert { id, server } => {
                assert(s1.len() == s.len() + 1);
            },
            RegistryOp::Remove { id } => {
                if spec_has_id(s, id) {
                    let i = choose|i: int| 0 <= i < s.len() && s[i].0 == id;
                    assert(s1 == s.remove(i));
                    assert(s1.len() == s.len() - 1);
                }
            },
        }
        lemma_size_after_ops(s1, ops.drop_first());
    }
}

/// Every insert in the sequence happens under an identifier that is fresh
/// at its moment.
pub open spec fn ops_fresh(s: Seq<(u128, GameServer)>, ops: Seq<RegistryOp>) -> bool
    decreases ops.len(),
{
    if ops.len() == 0 {
        true
    } else {
        (ops[0] matches RegistryOp::Insert { id, server } ==> !spec_has_id(s, id)) && ops_fresh(
            apply_op(s, ops[0]),
            ops.drop_first(),
        )
    }
}

/// Law: starting from distinct identifiers, inserts under fresh
/// identifiers and any removals leave the identifiers distinct, however
/// many records come and go. `add` draws only fresh identifiers, so the
/// registry never holds a duplicate.
pub proof fn lemma_fresh_inserts_keep_ids_distinct(
    s: Seq<(u128, GameServer)>,
    ops: Seq<RegistryOp>,
)
    requires
        ids_distinct(s),
        ops_fresh(s, ops),
    ensures
        ids_distinct(apply_ops(s, ops)),
    decreases ops.len(),
{
    if ops.len() > 0 {
        let s1 = apply_op(s, ops[0]);
        match ops[0] {
            RegistryOp::Insert { id, server } => {
                lemma_push_distinct(s, id, server);
            },
            RegistryOp::Remove { id } => {
                if spec_has_id(s, id) {
                    let i = choose|i: int| 0 <= i < s.len() && s[i].0 == id;
                    lemma_remove_distinct(s, i);
                }
            },
        }
        lemma_fresh_inserts_keep_ids_distinct(s1, ops.drop_first());
    }
}

} // verus!
