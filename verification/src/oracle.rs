//! The history store: the credit history of each user, kept by the user's identity.

use vstd::prelude::*;
use crate::contract::Env;
use crate::pricing::{Credit, History};

verus! {

/// What a [`History`] stands for.
pub struct HistoryView {
    pub debts: Option<u128>,
    pub credits: Seq<Credit>,
}

impl View for History {
    type V = HistoryView;

    open spec fn view(&self) -> HistoryView {
        HistoryView { debts: self.debts, credits: self.credits@ }
    }
}

/// The history of one user.
#[derive(Clone, Debug, PartialEq, Eq)]
pub struct HistoryEntry {
    pub user: String,
    pub history: History,
}

/// What a [`HistoryEntry`] stands for.
pub struct HistoryRecord {
    pub user: Seq<char>,
    pub history: HistoryView,
}

impl View for HistoryEntry {
    type V = HistoryRecord;

    open spec fn view(&self) -> HistoryRecord {
        HistoryRecord { user: self.user@, history: self.history@ }
    }
}

/// No user occurs twice.
pub open spec fn distinct_users(s: Seq<HistoryRecord>) -> bool {
    forall|i: int, j: int| 0 <= i < j < s.len() ==> s[i].user != s[j].user
}

/// Whether `user` has a history in `s`.
pub open spec fn has_user(s: Seq<HistoryRecord>, user: Seq<char>) -> bool {
    exists|i: int| 0 <= i < s.len() && s[i].user == user
}

/// The place of `user`'s history in `s`; meaningful only where `has_user(s, user)`.
pub open spec fn user_index(s: Seq<HistoryRecord>, user: Seq<char>) -> int {
    choose|i: int| 0 <= i < s.len() && s[i].user == user
}

/// The history of `user`, if the store holds one.
pub open spec fn history_of(s: Seq<HistoryRecord>, user: Seq<char>) -> Option<HistoryView> {
    if has_user(s, user) {
        Some(s[user_index(s, user)].history)
    } else {
        None
    }
}

/// The store after `user`'s history is set to `history`.
pub open spec fn with_history(s: Seq<HistoryRecord>, user: Seq<char>, history: HistoryView) -> Seq<
    HistoryRecord,
> {
    if has_user(s, user) {
        s.update(user_index(s, user), HistoryRecord { user, history })
    } else {
        s.push(HistoryRecord { user, history })
    }
}

/// In a store without duplicates, an entry of `user` is the one that `user_index` names.
pub proof fn lemma_user_index(s: Seq<HistoryRecord>, user: Seq<char>, i: int)
    requires
        distinct_users(s),
        0 <= i < s.len(),
        s[i].user == user,
    ensures
        has_user(s, user),
        user_index(s, user) == i,
{
    let k = user_index(s, user);
    assert(0 <= k < s.len() && s[k].user == user);
    if k < i {
        assert(s[k].user != s[i].user);
    } else if i < k {
        assert(s[i].user != s[k].user);
    }
}

/// Setting a user's history keeps the store free of duplicates, and the history is then the
/// user's.
pub proof fn lemma_with_history(s: Seq<HistoryRecord>, user: Seq<char>, history: HistoryView)
    requires
        distinct_users(s),
    ensures
        distinct_users(with_history(s, user, history)),
        history_of(with_history(s, user, history), user) == Some(history),
{
    let t = with_history(s, user, history);
    let k = if has_user(s, user) {
        user_index(s, user)
    } else {
        s.len() as int
    };
    assert(t[k].user == user);
    assert forall|i: int, j: int| 0 <= i < j < t.len() implies t[i].user != t[j].user by {
        if has_user(s, user) {
            assert(t[i].user == s[i].user);
            assert(t[j].user == s[j].user);
        } else if j == k {
            assert(s[i].user == t[i].user);
        }
    }
    lemma_user_index(t, user, k);
}

/// The state of the history store.
pub struct State {
    histories: Vec<HistoryEntry>,
    owner: String,
}

/// What a [`State`] stands for.
pub struct StateView {
    pub histories: Seq<HistoryRecord>,
    pub owner: Seq<char>,
}

impl View for State {
    type V = StateView;

    closed spec fn view(&self) -> StateView {
        StateView { histories: self.histories@.map_values(|e: HistoryEntry| e@), owner: self.owner@ }
    }
}

/// The message that creates a history store.
#[derive(Clone, Debug, PartialEq, Eq)]
pub struct InitMsg {
    pub user: Option<String>,
    pub history: Option<History>,
}

/// The messages that a history store handles.
#[derive(Clone, Debug, PartialEq, Eq)]
pub enum HandleMsg {
    /// Sets the history of `user`.
    AddHistory { user: String, history: History },
}

/// The questions that a history store answers.
#[derive(Clone, Debug, PartialEq, Eq)]
pub enum QueryMsg {
    /// The history of `user`.
    GetHistory { user: String },
}

/// The answer to a question about a user's history.
#[derive(Clone, Debug, PartialEq, Eq)]
pub struct QueryResponse {
    /// The history, if the store holds one.
    pub history: Option<History>,
    /// Whether a history was found.
    pub message: String,
}

/// Whether `response` answers the question about `user`'s history in the store `s`.
pub open spec fn answers(response: QueryResponse, s: Seq<HistoryRecord>, user: Seq<char>) -> bool {
    match history_of(s, user) {
        Some(history) => {
            &&& response.history matches Some(found)
            &&& found@ == history
            &&& response.message@ == "History for user found"@
        },
        None => response.history is None && response.message@ == "No history for user found"@,
    }
}

impl State {
    /// The store's invariant: no user has two histories.
    pub open spec fn wf(&self) -> bool {
        distinct_users(self@.histories)
    }

    /// Takes up a store from its entries and its owner. `None` where a user occurs twice.
    pub fn from_parts(histories: Vec<HistoryEntry>, owner: String) -> (r: Option<State>)
        ensures
            r is Some <==> distinct_users(histories@.map_values(|e: HistoryEntry| e@)),
            r matches Some(state) ==> state.wf() && state@ == (StateView {
                histories: histories@.map_values(|e: HistoryEntry| e@),
                owner: owner@,
            }),
    {
        let ghost s = histories@.map_values(|e: HistoryEntry| e@);
        let n = histories.len();
        let mut i: usize = 0;
        while i < n
            invariant
                n == histories@.len(),
                s == histories@.map_values(|e: HistoryEntry| e@),
                i <= n,
                forall|a: int, b: int| 0 <= a < b < i ==> s[a].user != s[b].user,
            decreases n - i,
        {
            let mut j: usize = 0;
            while j < i
                invariant
                    n == histories@.len(),
                    s == histories@.map_values(|e: HistoryEntry| e@),
                    i < n,
                    j <= i,
                    forall|a: int| 0 <= a < j ==> s[a].user != s[i as int].user,
                decreases i - j,
            {
                if histories[j].user == histories[i].user {
                    assert(s[j as int].user == s[i as int].user);
                    return None;
                }
                j = j + 1;
            }
            i = i + 1;
        }
        Some(State { histories, owner })
    }

    /// The entries of the store and its owner.
    pub fn into_parts(self) -> (r: (Vec<HistoryEntry>, String))
        ensures
            self@ == (StateView { histories: r.0@.map_values(|e: HistoryEntry| e@), owner: r.1@ }),
    {
        (self.histories, self.owner)
    }

    /// Who created the store.
    pub fn owner(&self) -> (r: &String)
        ensures
            r@ == self@.owner,
    {
        &self.owner
    }

    /// The number of users with a history.
    pub fn len(&self) -> (r: usize)
        ensures
            r == self@.histories.len(),
    {
        self.histories.len()
    }

    fn find(&self, user: &String) -> (r: Option<usize>)
        ensures
            match r {
                Some(i) => i < self@.histories.len() && self@.histories[i as int].user == user@,
                None => !has_user(self@.histories, user@),
            },
    {
        let mut i: usize = 0;
        while i < self.histories.len()
            invariant
                i <= self.histories.len(),
                forall|j: int| 0 <= j < i ==> self@.histories[j].user != user@,
            decreases self.histories.len() - i,
        {
            if self.histories[i].user == *user {
                return Some(i);
            }
            i = i + 1;
        }
        None
    }
}

/// A copy of a list of credits.
fn copy_credits(credits: &Vec<Credit>) -> (r: Vec<Credit>)
    ensures
        r@ == credits@,
{
    let mut out: Vec<Credit> = Vec::new();
    let mut i: usize = 0;
    while i < credits.len()
        invariant
            i <= credits.len(),
            out@ == credits@.take(i as int),
        decreases credits.len() - i,
    {
        out.push(credits[i]);
        assert(out@ =~= credits@.take(i + 1));
        i = i + 1;
    }
    assert(credits@.take(credits.len() as int) =~= credits@);
    out
}

/// Creates an empty history store, owned by the sender of the message.
pub fn init(env: Env, _msg: InitMsg) -> (r: State)
    ensures
        r.wf(),
        r@ == (StateView { histories: Seq::empty(), owner: env.sender@ }),
{
    let r = State { histories: Vec::new(), owner: env.sender };
    assert(r@.histories =~= Seq::<HistoryRecord>::empty());
    r
}

/// Sets the history of `user` to `history`, in place of the one that the store held.
pub fn try_add_history(state: &mut State, _env: Env, user: String, history: History)
    requires
        old(state).wf(),
    ensures
        final(state).wf(),
        final(state)@.owner == old(state)@.owner,
        final(state)@.histories == with_history(old(state)@.histories, user@, history@),
        history_of(final(state)@.histories, user@) == Some(history@),
{
    let ghost before = state@.histories;
    proof {
        lemma_with_history(before, user@, history@);
    }
    match state.find(&user) {
        Some(i) => {
            proof {
                lemma_user_index(before, user@, i as int);
            }
            state.histories.set(i, HistoryEntry { user, history });
            assert(state@.histories =~= with_history(before, user@, history@));
        },
        None => {
            state.histories.push(HistoryEntry { user, history });
            assert(state@.histories =~= with_history(before, user@, history@));
        },
    }
}

/// Handles a message to the history store.
pub fn handle(state: &mut State, env: Env, msg: HandleMsg)
    requires
        old(state).wf(),
    ensures
        final(state).wf(),
        final(state)@.owner == old(state)@.owner,
        msg matches HandleMsg::AddHistory { user, history } && final(state)@.histories
            == with_history(old(state)@.histories, user@, history@),
{
    match msg {
        HandleMsg::AddHistory { user, history } => try_add_history(state, env, user, history),
    }
}

/// The history of `user`, where the store holds one.
pub fn query_get_history(state: &State, user: &String) -> (r: QueryResponse)
    requires
        state.wf(),
    ensures
        answers(r, state@.histories, user@),
{
    match state.find(user) {
        Some(i) => {
            proof {
                lemma_user_index(state@.histories, user@, i as int);
            }
            let found = &state.histories[i].history;
            QueryResponse {
                history: Some(History { debts: found.debts, credits: copy_credits(&found.credits) }),
                message: "History for user found".to_owned(),
            }
        },
        None => QueryResponse { history: None, message: "No history for user found".to_owned() },
    }
}

/// Answers a question to the history store.
pub fn query(state: &State, msg: QueryMsg) -> (r: QueryResponse)
    requires
        state.wf(),
    ensures
        msg matches QueryMsg::GetHistory { user } && answers(r, state@.histories, user@),
{
    match msg {
        QueryMsg::GetHistory { user } => query_get_history(state, &user),
    }
}

} // verus!
