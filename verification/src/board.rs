//! The observer that the receiver loop dispatches to: a chat log and the
//! list of peers that are present.

use vstd::prelude::*;
use crate::event::{Event, EventModel};

verus! {

/// What a [`Board`] is: the session ids of the peers present, in the order
/// in which they arrived, and the chat log as pairs of sender and content,
/// oldest first.
pub struct BoardModel {
    pub present: Seq<Seq<char>>,
    pub log: Seq<(Seq<char>, Seq<char>)>,
}

/// The chat log and presence list of one session.
#[derive(Debug)]
pub struct Board {
    present: Vec<String>,
    log: Vec<(String, String)>,
}

/// `ids` without every occurrence of `id`, the others in their order.
pub open spec fn without(ids: Seq<Seq<char>>, id: Seq<char>) -> Seq<Seq<char>>
    decreases ids.len(),
{
    if ids.len() == 0 {
        ids
    } else if ids.last() == id {
        without(ids.drop_last(), id)
    } else {
        without(ids.drop_last(), id).push(ids.last())
    }
}

/// The board after `event` was dispatched to it: a chat message is appended
/// to the log; a connection adds the peer to those present, unless it is
/// there already; a disconnection removes it.
pub open spec fn applied(board: BoardModel, event: EventModel) -> BoardModel {
    match event {
        EventModel::Chat(sender, content) => BoardModel { log: board.log.push((sender, content)), ..board },
        EventModel::Connected(id) => BoardModel {
            present: if board.present.contains(id) { board.present } else { board.present.push(id) },
            ..board
        },
        EventModel::Disconnected(id) => BoardModel { present: without(board.present, id), ..board },
    }
}

/// Nothing is left of `id` in `without(ids, id)`, and nothing else is lost.
pub proof fn lemma_without(ids: Seq<Seq<char>>, id: Seq<char>, other: Seq<char>)
    ensures
        !without(ids, id).contains(id),
        other != id ==> (without(ids, id).contains(other) <==> ids.contains(other)),
        without(ids, id).len() <= ids.len(),
    decreases ids.len(),
{
    if ids.len() > 0 {
        let front = ids.drop_last();
        lemma_without(front, id, other);
        let kept = without(front, id);
        assert(ids =~= front.push(ids.last()));
        assert forall|x: Seq<char>| #[trigger] ids.contains(x) <==> (front.contains(x) || x == ids.last()) by {
            if ids.contains(x) {
                let i = choose|i: int| 0 <= i < ids.len() && ids[i] == x;
                if i < front.len() {
                    assert(front[i] == x);
                }
            }
            if front.contains(x) {
                let i = choose|i: int| 0 <= i < front.len() && front[i] == x;
                assert(ids[i] == x);
            }
            if x == ids.last() {
                assert(ids[ids.len() - 1] == x);
            }
        }
        if ids.last() != id {
            let all = kept.push(ids.last());
            assert forall|x: Seq<char>| #[trigger] all.contains(x) <==> (kept.contains(x) || x == ids.last()) by {
                if all.contains(x) {
                    let i = choose|i: int| 0 <= i < all.len() && all[i] == x;
                    if i < kept.len() {
                        assert(kept[i] == x);
                    }
                }
                if kept.contains(x) {
                    let i = choose|i: int| 0 <= i < kept.len() && kept[i] == x;
                    assert(all[i] == x);
                }
                if x == ids.last() {
                    assert(all[all.len() - 1] == x);
                }
            }
        }
    }
}

impl View for Board {
    type V = BoardModel;

    closed spec fn view(&self) -> BoardModel {
        BoardModel {
            present: Seq::new(self.present@.len(), |i: int| self.present@[i]@),
            log: Seq::new(self.log@.len(), |i: int| (self.log@[i].0@, self.log@[i].1@)),
        }
    }
}

impl Board {
    /// A board with an empty log and nobody present.
    pub fn new() -> (board: Board)
        ensures
            board@.present.len() == 0,
            board@.log.len() == 0,
    {
        Board { present: Vec::new(), log: Vec::new() }
    }

    /// How many chat messages the log holds.
    pub fn log_len(&self) -> (n: usize)
        ensures
            n == self@.log.len(),
    {
        self.log.len()
    }

    /// The sender of the chat message at `index` of the log.
    pub fn sender_at(&self, index: usize) -> (sender: &String)
        requires
            index < self@.log.len(),
        ensures
            sender@ == self@.log[index as int].0,
    {
        &self.log[index].0
    }

    /// The content of the chat message at `index` of the log.
    pub fn content_at(&self, index: usize) -> (content: &String)
        requires
            index < self@.log.len(),
        ensures
            content@ == self@.log[index as int].1,
    {
        &self.log[index].1
    }

    /// How many peers are present.
    pub fn present_len(&self) -> (n: usize)
        ensures
            n == self@.present.len(),
    {
        self.present.len()
    }

    /// Whether the peer with session id `id` is present.
    pub fn is_present(&self, id: &String) -> (yes: bool)
        ensures
            yes == self@.present.contains(id@),
    {
        let mut i: usize = 0;
        while i < self.present.len()
            invariant
                i <= self.present@.len(),
                forall|j: int| 0 <= j < i ==> self@.present[j] != id@,
            decreases self.present@.len() - i,
        {
            if self.present[i] == *id {
                assert(self@.present[i as int] == id@);
                return true;
            }
            i = i + 1;
        }
        false
    }

    /// Dispatches one event to the board.
    pub fn apply(&mut self, event: Event)
        ensures
            final(self)@ == applied(old(self)@, event@),
    {
        match event {
            Event::Chat(sender, content) => {
                self.log.push((sender, content));
                assert(self@.log =~= old(self)@.log.push((sender@, content@)));
                assert(self@.present =~= old(self)@.present);
            },
            Event::Connected(id) => {
                if !self.is_present(&id) {
                    self.present.push(id);
                    assert(self@.present =~= old(self)@.present.push(id@));
                }
                assert(self@.log =~= old(self)@.log);
            },
            Event::Disconnected(id) => {
                let mut kept: Vec<String> = Vec::new();
                let mut i: usize = 0;
                let ghost before = self@.present;
                assert(before.take(0) =~= Seq::<Seq<char>>::empty());
                while i < self.present.len()
                    invariant
                        i <= self.present@.len(),
                        *self == *old(self),
                        before == self@.present,
                        Seq::new(kept@.len(), |j: int| kept@[j]@) =~= without(before.take(i as int), id@),
                    decreases self.present@.len() - i,
                {
                    assert(before.take(i + 1).drop_last() =~= before.take(i as int));
                    assert(before.take(i + 1).last() == before[i as int]);
                    if self.present[i] != id {
                        kept.push(self.present[i].clone());
                    }
                    i = i + 1;
                }
                assert(before.take(i as int) =~= before);
                self.present = kept;
                assert(self@.present =~= without(before, id@));
                assert(self@.log =~= old(self)@.log);
            },
        }
    }
}

} // verus!
