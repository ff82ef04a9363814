//! The backing store: the user, memo and credential tables, held in memory,
//! with unique, freshly allocated row ids and at most one credential record
//! per user.

use vstd::prelude::*;

verus! {

/// A user row: created on signup, immutable afterwards.
pub struct UserRecord {
    pub id: u128,
    pub username: String,
    pub email: String,
    pub password_hash: String,
    /// Seconds since the Unix epoch.
    pub created_at: u64,
}

/// A memo row, owned by one user. The tag list is kept in its serialized
/// string form, exactly as stored.
pub struct MemoRecord {
    pub id: u128,
    pub user_id: u128,
    pub title: String,
    pub audio_blob: Option<Vec<u8>>,
    pub transcript: Option<String>,
    pub translate: Option<String>,
    pub summary: Option<String>,
    pub tags: Option<String>,
    pub duration: String,
    pub created_at: u64,
}

/// A credential row, at most one per user: encrypted third-party keys and the
/// helper flag.
pub struct HelperRecord {
    pub id: u128,
    pub user_id: u128,
    pub gemini_key: Option<String>,
    pub elevenlabs_key: Option<String>,
    /// Tag of the last operation that created the row.
    pub action: String,
    pub timestamp: u64,
    pub helper_status: bool,
}

#[verifier::ext_equal]
pub ghost struct UserV {
    pub id: u128,
    pub username: Seq<char>,
    pub email: Seq<char>,
    pub password_hash: Seq<char>,
    pub created_at: u64,
}

#[verifier::ext_equal]
pub ghost struct MemoV {
    pub id: u128,
    pub user_id: u128,
    pub title: Seq<char>,
    pub audio_blob: Option<Seq<u8>>,
    pub transcript: Option<Seq<char>>,
    pub translate: Option<Seq<char>>,
    pub summary: Option<Seq<char>>,
    pub tags: Option<Seq<char>>,
    pub duration: Seq<char>,
    pub created_at: u64,
}

#[verifier::ext_equal]
pub ghost struct HelperV {
    pub id: u128,
    pub user_id: u128,
    pub gemini_key: Option<Seq<char>>,
    pub elevenlabs_key: Option<Seq<char>>,
    pub action: Seq<char>,
    pub timestamp: u64,
    pub helper_status: bool,
}

impl DeepView for UserRecord {
    type V = UserV;

    open spec fn deep_view(&self) -> UserV {
        UserV {
            id: self.id,
            username: self.username@,
            email: self.email@,
            password_hash: self.password_hash@,
            created_at: self.created_at,
        }
    }
}

impl DeepView for MemoRecord {
    type V = MemoV;

    open spec fn deep_view(&self) -> MemoV {
        MemoV {
            id: self.id,
            user_id: self.user_id,
            title: self.title@,
            audio_blob: self.audio_blob.deep_view(),
            transcript: self.transcript.deep_view(),
            translate: self.translate.deep_view(),
            summary: self.summary.deep_view(),
            tags: self.tags.deep_view(),
            duration: self.duration@,
            created_at: self.created_at,
        }
    }
}

impl DeepView for HelperRecord {
    type V = HelperV;

    open spec fn deep_view(&self) -> HelperV {
        HelperV {
            id: self.id,
            user_id: self.user_id,
            gemini_key: self.gemini_key.deep_view(),
            elevenlabs_key: self.elevenlabs_key.deep_view(),
            action: self.action@,
            timestamp: self.timestamp,
            helper_status: self.helper_status,
        }
    }
}

/// The three tables and the id counter they draw fresh row ids from.
pub struct Store {
    pub users: Vec<UserRecord>,
    pub memos: Vec<MemoRecord>,
    pub helper: Vec<HelperRecord>,
    pub next_id: u128,
}

#[verifier::ext_equal]
pub ghost struct StoreV {
    pub users: Seq<UserV>,
    pub memos: Seq<MemoV>,
    pub helper: Seq<HelperV>,
    pub next_id: u128,
}

impl View for Store {
    type V = StoreV;

    open spec fn view(&self) -> StoreV {
        StoreV {
            users: self.users.deep_view(),
            memos: self.memos.deep_view(),
            helper: self.helper.deep_view(),
            next_id: self.next_id,
        }
    }
}

/// The store's invariant: every row id was drawn from the counter, ids are
/// unique per table, and each user has at most one credential row.
pub open spec fn store_wf(s: StoreV) -> bool {
    &&& forall|i: int| 0 <= i < s.users.len() ==> (#[trigger] s.users[i]).id < s.next_id
    &&& forall|i: int, j: int|
        0 <= i < j < s.users.len() ==> (#[trigger] s.users[i]).id != (#[trigger] s.users[j]).id
    &&& forall|i: int, j: int|
        0 <= i < j < s.users.len() ==> (#[trigger] s.users[i]).email != (
        #[trigger] s.users[j]).email
    &&& forall|i: int| 0 <= i < s.memos.len() ==> (#[trigger] s.memos[i]).id < s.next_id
    &&& forall|i: int, j: int|
        0 <= i < j < s.memos.len() ==> (#[trigger] s.memos[i]).id != (#[trigger] s.memos[j]).id
    &&& forall|i: int| 0 <= i < s.helper.len() ==> (#[trigger] s.helper[i]).id < s.next_id
    &&& forall|i: int, j: int|
        0 <= i < j < s.helper.len() ==> (#[trigger] s.helper[i]).id != (
        #[trigger] s.helper[j]).id
    &&& forall|i: int, j: int|
        0 <= i < j < s.helper.len() ==> (#[trigger] s.helper[i]).user_id != (
        #[trigger] s.helper[j]).user_id
}

/// Replacing memo fields in place (ids untouched) keeps the store well formed.
pub proof fn lemma_wf_memos_same_ids(pre: StoreV, post: StoreV)
    requires
        store_wf(pre),
        post.users == pre.users,
        post.helper == pre.helper,
        post.next_id == pre.next_id,
        post.memos.len() == pre.memos.len(),
        forall|i: int| 0 <= i < post.memos.len() ==> (#[trigger] post.memos[i]).id == pre.memos[i].id,
    ensures
        store_wf(post),
{
    assert forall|i: int| 0 <= i < post.memos.len() implies (#[trigger] post.memos[i]).id
        < post.next_id by {
        assert(pre.memos[i].id < pre.next_id);
    }
    assert forall|i: int, j: int| 0 <= i < j < post.memos.len() implies (
    #[trigger] post.memos[i]).id != (#[trigger] post.memos[j]).id by {
        assert(pre.memos[i].id != pre.memos[j].id);
    }
}

/// Appending a memo with a fresh id keeps the store well formed.
pub proof fn lemma_wf_push_memo(pre: StoreV, post: StoreV, m: MemoV)
    requires
        store_wf(pre),
        post.users == pre.users,
        post.helper == pre.helper,
        post.next_id == pre.next_id,
        post.memos == pre.memos.push(m),
        m.id < pre.next_id,
        forall|i: int| 0 <= i < pre.memos.len() ==> (#[trigger] pre.memos[i]).id != m.id,
    ensures
        store_wf(post),
{
    assert forall|i: int| 0 <= i < post.memos.len() implies (#[trigger] post.memos[i]).id
        < post.next_id by {
        if i < pre.memos.len() {
            assert(pre.memos[i].id < pre.next_id);
        } else {
            assert(post.memos[i] == m);
        }
    }
    assert forall|i: int, j: int| 0 <= i < j < post.memos.len() implies (
    #[trigger] post.memos[i]).id != (#[trigger] post.memos[j]).id by {
        if j < pre.memos.len() {
            assert(pre.memos[i].id != pre.memos[j].id);
        } else {
            assert(post.memos[j] == m);
            assert(pre.memos[i].id != m.id);
        }
    }
}

/// Removing a memo row keeps the store well formed.
pub proof fn lemma_wf_remove_memo(pre: StoreV, post: StoreV, at: int)
    requires
        store_wf(pre),
        post.users == pre.users,
        post.helper == pre.helper,
        post.next_id == pre.next_id,
        0 <= at < pre.memos.len(),
        post.memos == pre.memos.remove(at),
    ensures
        store_wf(post),
{
    assert forall|i: int| 0 <= i < post.memos.len() implies (#[trigger] post.memos[i]).id
        < post.next_id by {
        if i < at {
            assert(post.memos[i] == pre.memos[i]);
        } else {
            assert(post.memos[i] == pre.memos[i + 1]);
        }
    }
    assert forall|i: int, j: int| 0 <= i < j < post.memos.len() implies (
    #[trigger] post.memos[i]).id != (#[trigger] post.memos[j]).id by {
        let pi: int = if i < at { i } else { i + 1 };
        let pj: int = if j < at { j } else { j + 1 };
        assert(post.memos[i] == pre.memos[pi]);
        assert(post.memos[j] == pre.memos[pj]);
        assert(pre.memos[pi].id != pre.memos[pj].id);
    }
}

/// Replacing credential-record fields in place (ids and owners untouched)
/// keeps the store well formed.
pub proof fn lemma_wf_helper_same_ids(pre: StoreV, post: StoreV)
    requires
        store_wf(pre),
        post.users == pre.users,
        post.memos == pre.memos,
        post.next_id == pre.next_id,
        post.helper.len() == pre.helper.len(),
        forall|i: int|
            0 <= i < post.helper.len() ==> (#[trigger] post.helper[i]).id == pre.helper[i].id
                && post.helper[i].user_id == pre.helper[i].user_id,
    ensures
        store_wf(post),
{
    assert forall|i: int| 0 <= i < post.helper.len() implies (#[trigger] post.helper[i]).id
        < post.next_id by {
        assert(pre.helper[i].id < pre.next_id);
    }
    assert forall|i: int, j: int| 0 <= i < j < post.helper.len() implies (
    #[trigger] post.helper[i]).id != (#[trigger] post.helper[j]).id && post.helper[i].user_id
        != post.helper[j].user_id by {
        assert(pre.helper[i].id != pre.helper[j].id);
        assert(pre.helper[i].user_id != pre.helper[j].user_id);
    }
}

/// Appending a credential row with a fresh id, for a user who has none, keeps
/// the store well formed.
pub proof fn lemma_wf_push_helper(pre: StoreV, post: StoreV, h: HelperV)
    requires
        store_wf(pre),
        post.users == pre.users,
        post.memos == pre.memos,
        post.next_id == pre.next_id,
        post.helper == pre.helper.push(h),
        h.id < pre.next_id,
        forall|i: int| 0 <= i < pre.helper.len() ==> (#[trigger] pre.helper[i]).id != h.id,
        forall|i: int|
            0 <= i < pre.helper.len() ==> (#[trigger] pre.helper[i]).user_id != h.user_id,
    ensures
        store_wf(post),
{
    assert forall|i: int| 0 <= i < post.helper.len() implies (#[trigger] post.helper[i]).id
        < post.next_id by {
        if i < pre.helper.len() {
            assert(pre.helper[i].id < pre.next_id);
        } else {
            assert(post.helper[i] == h);
        }
    }
    assert forall|i: int, j: int| 0 <= i < j < post.helper.len() implies (
    #[trigger] post.helper[i]).id != (#[trigger] post.helper[j]).id && post.helper[i].user_id
        != post.helper[j].user_id by {
        if j < pre.helper.len() {
            assert(pre.helper[i].id != pre.helper[j].id);
            assert(pre.helper[i].user_id != pre.helper[j].user_id);
        } else {
            assert(post.helper[j] == h);
            if i < pre.helper.len() {
                assert(pre.helper[i].id != h.id);
                assert(pre.helper[i].user_id != h.user_id);
            }
        }
    }
}

/// Copies an optional string, field by field, keeping its view.
pub fn opt_string_clone(v: &Option<String>) -> (r: Option<String>)
    ensures
        r.deep_view() == v.deep_view(),
{
    match v {
        Some(s) => Some(s.clone()),
        None => None,
    }
}

/// Copies an optional byte buffer, keeping its view.
pub fn opt_bytes_clone(v: &Option<Vec<u8>>) -> (r: Option<Vec<u8>>)
    ensures
        r.deep_view() == v.deep_view(),
{
    match v {
        Some(b) => Some(vstd::slice::slice_to_vec(b.as_slice())),
        None => None,
    }
}

/// Copies a user row, keeping its view.
pub fn clone_user(u: &UserRecord) -> (r: UserRecord)
    ensures
        r.deep_view() == u.deep_view(),
{
    UserRecord {
        id: u.id,
        username: u.username.clone(),
        email: u.email.clone(),
        password_hash: u.password_hash.clone(),
        created_at: u.created_at,
    }
}

impl Store {
    pub open spec fn wf(&self) -> bool {
        store_wf(self@)
    }

    /// An empty store.
    pub fn new() -> (r: Store)
        ensures
            r.wf(),
            r@.users =~= Seq::<UserV>::empty(),
            r@.memos =~= Seq::<MemoV>::empty(),
            r@.helper =~= Seq::<HelperV>::empty(),
    {
        Store { users: Vec::new(), memos: Vec::new(), helper: Vec::new(), next_id: 0 }
    }

    /// Draws a fresh row id, distinct from every id any table holds.
    /// Fails only when the id space is exhausted.
    pub fn fresh_id(&mut self) -> (r: Option<u128>)
        requires
            old(self).wf(),
        ensures
            final(self).wf(),
            final(self)@.users == old(self)@.users,
            final(self)@.memos == old(self)@.memos,
            final(self)@.helper == old(self)@.helper,
            r matches Some(id) ==> ({
                &&& id == old(self)@.next_id
                &&& final(self)@.next_id == old(self)@.next_id + 1
                &&& forall|i: int|
                    0 <= i < final(self)@.memos.len() ==> (#[trigger] final(self)@.memos[i]).id != id
                &&& forall|i: int|
                    0 <= i < final(self)@.users.len() ==> (#[trigger] final(self)@.users[i]).id != id
                &&& forall|i: int|
                    0 <= i < final(self)@.helper.len() ==> (#[trigger] final(self)@.helper[i]).id != id
            }),
            r is None ==> final(self)@ == old(self)@,
            old(self).next_id < u128::MAX ==> r is Some,
    {
        if self.next_id == u128::MAX {
            return None;
        }
        let id = self.next_id;
        self.next_id = self.next_id + 1;
        proof {
            assert(self@.users == old(self)@.users);
            assert(self@.memos == old(self)@.memos);
            assert(self@.helper == old(self)@.helper);
            assert forall|i: int| 0 <= i < self@.users.len() implies (
            #[trigger] self@.users[i]).id < self@.next_id by {
                assert(old(self)@.users[i].id < old(self)@.next_id);
            }
            assert forall|i: int| 0 <= i < self@.memos.len() implies (
            #[trigger] self@.memos[i]).id < self@.next_id by {
                assert(old(self)@.memos[i].id < old(self)@.next_id);
            }
            assert forall|i: int| 0 <= i < self@.helper.len() implies (
            #[trigger] self@.helper[i]).id < self@.next_id by {
                assert(old(self)@.helper[i].id < old(self)@.next_id);
            }
        }
        Some(id)
    }

    /// The index of the user row with this id, if any.
    pub fn find_user_by_id(&self, id: u128) -> (r: Option<usize>)
        ensures
            r matches Some(i) ==> i < self@.users.len() && self@.users[i as int].id == id,
            r is None ==> (forall|i: int|
                0 <= i < self@.users.len() ==> (#[trigger] self@.users[i]).id != id),
    {
        let n: usize = self.users.len();
        let mut i: usize = 0;
        while i < n
            invariant
                0 <= i <= n,
                n == self@.users.len(),
                forall|j: int| 0 <= j < i ==> (#[trigger] self@.users[j]).id != id,
            decreases n - i,
        {
            if self.users[i].id == id {
                return Some(i);
            }
            i = i + 1;
        }
        None
    }

    /// The index of the first user row with this email, if any.
    pub fn find_user_by_email(&self, email: &String) -> (r: Option<usize>)
        ensures
            r matches Some(i) ==> i < self@.users.len() && self@.users[i as int].email == email@
                && (forall|j: int|
                0 <= j < i ==> (#[trigger] self@.users[j]).email != email@),
            r is None ==> (forall|i: int|
                0 <= i < self@.users.len() ==> (#[trigger] self@.users[i]).email != email@),
    {
        let n: usize = self.users.len();
        let mut i: usize = 0;
        while i < n
            invariant
                0 <= i <= n,
                n == self@.users.len(),
                forall|j: int| 0 <= j < i ==> (#[trigger] self@.users[j]).email != email@,
            decreases n - i,
        {
            if self.users[i].email.eq(email) {
                return Some(i);
            }
            i = i + 1;
        }
        None
    }

    /// The index of the memo row with this id, if any.
    pub fn find_memo_by_id(&self, id: u128) -> (r: Option<usize>)
        ensures
            r matches Some(i) ==> i < self@.memos.len() && self@.memos[i as int].id == id,
            r is None ==> (forall|i: int|
                0 <= i < self@.memos.len() ==> (#[trigger] self@.memos[i]).id != id),
    {
        let n: usize = self.memos.len();
        let mut i: usize = 0;
        while i < n
            invariant
                0 <= i <= n,
                n == self@.memos.len(),
                forall|j: int| 0 <= j < i ==> (#[trigger] self@.memos[j]).id != id,
            decreases n - i,
        {
            if self.memos[i].id == id {
                return Some(i);
            }
            i = i + 1;
        }
        None
    }

    /// The index of the credential row of this user, if any; unique when the
    /// store is well formed.
    pub fn find_helper_by_user(&self, user_id: u128) -> (r: Option<usize>)
        ensures
            r matches Some(i) ==> i < self@.helper.len() && self@.helper[i as int].user_id
                == user_id,
            r is None ==> (forall|i: int|
                0 <= i < self@.helper.len() ==> (#[trigger] self@.helper[i]).user_id != user_id),
    {
        let n: usize = self.helper.len();
        let mut i: usize = 0;
        while i < n
            invariant
                0 <= i <= n,
                n == self@.helper.len(),
                forall|j: int| 0 <= j < i ==> (#[trigger] self@.helper[j]).user_id != user_id,
            decreases n - i,
        {
            if self.helper[i].user_id == user_id {
                return Some(i);
            }
            i = i + 1;
        }
        None
    }
}

} // verus!
