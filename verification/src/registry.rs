//! The connection registry: an ordered list of descriptors, looked up by id,
//! each of which gets its pool the first time it is resolved.
//!
//! The registry owns its descriptors and is reached through a shared or an
//! exclusive borrow, so a lookup always sees every descriptor: none is skipped
//! because another caller holds it. Callers that share a registry serialize
//! their access to it as a whole.

use crate::pool::{pool_is_closed, share_pool, DBPool, PgPoolHandle};
use vstd::prelude::*;
use vstd::string::*;

verus! {

/// The largest number of physical connections a pool opened for a descriptor
/// may hold.
pub const MAX_POOL_CONNECTIONS: u32 = 5;

/// The id of the descriptor that is seeded into an empty registry.
pub const SAMPLE_ID: &'static str = "sample";

/// Why an execution or a resolution failed.
#[derive(Debug, Clone, PartialEq, Eq)]
pub enum DbError {
    /// No descriptor has the requested id.
    ConnectionNotFound,
    /// The descriptor's pool reports itself closed.
    PoolClosed,
    /// The descriptor's pool is of a backend that executions do not run on.
    UnsupportedBackend,
    /// The driver failed; the message is the driver's own.
    Driver(String),
    /// An execution was resumed with an answer to a request it had not made.
    UnexpectedEvent,
}

/// The mathematical content of a [`DbError`].
pub enum DbErrorView {
    ConnectionNotFound,
    PoolClosed,
    UnsupportedBackend,
    Driver(Seq<char>),
    UnexpectedEvent,
}

impl View for DbError {
    type V = DbErrorView;

    open spec fn view(&self) -> DbErrorView {
        match self {
            DbError::ConnectionNotFound => DbErrorView::ConnectionNotFound,
            DbError::PoolClosed => DbErrorView::PoolClosed,
            DbError::UnsupportedBackend => DbErrorView::UnsupportedBackend,
            DbError::Driver(message) => DbErrorView::Driver(message@),
            DbError::UnexpectedEvent => DbErrorView::UnexpectedEvent,
        }
    }
}

/// A registry entry: a logical id, a connection URL, and the pool once it has
/// been opened.
#[derive(Debug)]
pub struct DBConnection {
    id: String,
    url: String,
    connection: Option<DBPool>,
}

/// The mathematical content of a [`DBConnection`].
pub struct DescriptorView {
    pub id: Seq<char>,
    pub url: Seq<char>,
    pub connection: Option<DBPool>,
}

impl View for DBConnection {
    type V = DescriptorView;

    closed spec fn view(&self) -> DescriptorView {
        DescriptorView { id: self.id@, url: self.url@, connection: self.connection }
    }
}

impl DBConnection {
    /// A descriptor that has no pool yet.
    pub fn new(id: String, url: String) -> (descriptor: DBConnection)
        ensures
            descriptor@ == (DescriptorView { id: id@, url: url@, connection: None }),
    {
        DBConnection { id, url, connection: None }
    }

    /// The logical id.
    pub fn id(&self) -> (id: &String)
        ensures
            id@ == self@.id,
    {
        &self.id
    }

    /// The connection URL.
    pub fn url(&self) -> (url: &String)
        ensures
            url@ == self@.url,
    {
        &self.url
    }

    /// The pool, if one has been opened.
    pub fn connection(&self) -> (pool: &Option<DBPool>)
        ensures
            *pool == self@.connection,
    {
        &self.connection
    }

    /// Whether a pool has been opened for this descriptor.
    pub fn is_connected(&self) -> (connected: bool)
        ensures
            connected == self@.connection.is_some(),
    {
        self.connection.is_some()
    }
}

/// What resolving an id asks of the caller.
#[derive(Debug)]
pub enum Resolution {
    /// The descriptor has an open pool: use it.
    Ready(PgPoolHandle),
    /// The descriptor has no pool yet: open one on `url` with at most
    /// `max_connections` connections and attach it.
    MustConnect { url: String, max_connections: u32 },
}

/// The mathematical content of a [`Resolution`].
pub enum ResolutionView {
    Ready(PgPoolHandle),
    MustConnect { url: Seq<char>, max_connections: u32 },
}

impl View for Resolution {
    type V = ResolutionView;

    open spec fn view(&self) -> ResolutionView {
        match self {
            Resolution::Ready(pool) => ResolutionView::Ready(*pool),
            Resolution::MustConnect { url, max_connections } => ResolutionView::MustConnect {
                url: url@,
                max_connections: *max_connections,
            },
        }
    }
}

/// The view of the outcome of a resolution.
pub open spec fn outcome_view(outcome: Result<Resolution, DbError>) -> Result<
    ResolutionView,
    DbErrorView,
> {
    match outcome {
        Ok(resolution) => Ok(resolution@),
        Err(error) => Err(error@),
    }
}

/// The first index at or after `from` whose descriptor has the id `id`.
pub open spec fn first_match_from(descriptors: Seq<DescriptorView>, id: Seq<char>, from: int)
    -> Option<int>
    decreases descriptors.len() - from,
{
    if from < 0 || from >= descriptors.len() {
        None
    } else if descriptors[from].id == id {
        Some(from)
    } else {
        first_match_from(descriptors, id, from + 1)
    }
}

/// The index of the first descriptor whose id is `id`, if there is one.
pub open spec fn first_match(descriptors: Seq<DescriptorView>, id: Seq<char>) -> Option<int> {
    first_match_from(descriptors, id, 0)
}

/// What `first_match_from` finds is the least index from `from` on whose
/// descriptor has the id; it finds none exactly when no such index exists.
pub proof fn lemma_first_match_from(descriptors: Seq<DescriptorView>, id: Seq<char>, from: int)
    requires
        0 <= from,
    ensures
        match first_match_from(descriptors, id, from) {
            Some(i) => {
                &&& from <= i < descriptors.len()
                &&& descriptors[i].id == id
                &&& forall|j: int| from <= j < i ==> (#[trigger] descriptors[j]).id != id
            },
            None => forall|j: int|
                from <= j < descriptors.len() ==> (#[trigger] descriptors[j]).id != id,
        },
    decreases descriptors.len() - from,
{
    if from < descriptors.len() && descriptors[from].id != id {
        lemma_first_match_from(descriptors, id, from + 1);
    }
}

/// The descriptor seeded into an empty registry.
pub open spec fn sample_descriptor(url: Seq<char>) -> DescriptorView {
    DescriptorView { id: SAMPLE_ID@, url, connection: None }
}

/// What resolving `id` gives, where `closed` is what the matched descriptor's
/// pool answers when asked whether it is closed.
pub open spec fn resolved(descriptors: Seq<DescriptorView>, id: Seq<char>, closed: bool) -> Result<
    ResolutionView,
    DbErrorView,
> {
    match first_match(descriptors, id) {
        None => Err(DbErrorView::ConnectionNotFound),
        Some(i) => match descriptors[i].connection {
            None => Ok(
                ResolutionView::MustConnect {
                    url: descriptors[i].url,
                    max_connections: MAX_POOL_CONNECTIONS,
                },
            ),
            Some(DBPool::MySqlCon(_)) => Err(DbErrorView::UnsupportedBackend),
            Some(DBPool::PostgresCon(pool)) => if closed {
                Err(DbErrorView::PoolClosed)
            } else {
                Ok(ResolutionView::Ready(pool))
            },
        },
    }
}

/// The registry after `pool` has been offered to the first descriptor with the
/// id `id`: it is stored if that descriptor had none, and dropped otherwise.
pub open spec fn attached(descriptors: Seq<DescriptorView>, id: Seq<char>, pool: DBPool) -> Seq<
    DescriptorView,
> {
    match first_match(descriptors, id) {
        Some(i) if descriptors[i].connection.is_none() => descriptors.update(
            i,
            DescriptorView { connection: Some(pool), ..descriptors[i] },
        ),
        _ => descriptors,
    }
}

/// The registry of connection descriptors, in insertion order. Ids need not be
/// unique: an id resolves to the first descriptor that has it.
#[derive(Debug)]
pub struct DbManager {
    pub connections: Vec<DBConnection>,
}

impl View for DbManager {
    type V = Seq<DescriptorView>;

    open spec fn view(&self) -> Seq<DescriptorView> {
        Seq::new(self.connections.len() as nat, |i: int| self.connections[i]@)
    }
}

impl DbManager {
    /// An empty registry.
    pub fn new() -> (manager: DbManager)
        ensures
            manager@ == Seq::<DescriptorView>::empty(),
    {
        DbManager { connections: Vec::new() }
    }

    /// Whether the registry holds no descriptor.
    pub fn is_empty(&self) -> (empty: bool)
        ensures
            empty == (self@.len() == 0),
    {
        self.connections.len() == 0
    }

    /// Appends a descriptor. Nothing checks that its id is new.
    pub fn add(&mut self, descriptor: DBConnection)
        ensures
            final(self)@ == old(self)@.push(descriptor@),
    {
        self.connections.push(descriptor);
        assert(self@ =~= old(self)@.push(descriptor@));
    }

    /// Appends the sample descriptor: the id `sample` on `url`, with no pool.
    pub fn add_sample_connection(&mut self, url: String)
        ensures
            final(self)@ == old(self)@.push(sample_descriptor(url@)),
    {
        let descriptor = DBConnection::new(String::from_str(SAMPLE_ID), url);
        self.add(descriptor);
    }

    /// The index of the first descriptor whose id is `id`; `None` exactly
    /// when no descriptor has that id.
    pub fn position(&self, id: &str) -> (found: Option<usize>)
        ensures
            match found {
                Some(i) => {
                    &&& i < self@.len()
                    &&& self@[i as int].id == id@
                    &&& forall|j: int| 0 <= j < i ==> (#[trigger] self@[j]).id != id@
                },
                None => forall|j: int| 0 <= j < self@.len() ==> (#[trigger] self@[j]).id != id@,
            },
            found.is_some() == first_match(self@, id@).is_some(),
            found matches Some(i) ==> first_match(self@, id@) == Some(i as int),
    {
        let mut i: usize = 0;
        while i < self.connections.len()
            invariant
                i <= self.connections.len(),
                first_match(self@, id@) == first_match_from(self@, id@, i as int),
            decreases self.connections.len() - i,
        {
            if self.connections[i].id.as_str().eq(id) {
                proof {
                    lemma_first_match_from(self@, id@, 0);
                }
                return Some(i);
            }
            i += 1;
        }
        proof {
            lemma_first_match_from(self@, id@, 0);
        }
        None
    }

    /// The first descriptor whose id is `id`; `None` exactly when no
    /// descriptor has that id. Every descriptor can always be inspected, so
    /// none is ever passed over.
    pub fn find_connection_by_id(&self, id: &str) -> (found: Option<&DBConnection>)
        ensures
            match found {
                Some(descriptor) => exists|i: int|
                    {
                        &&& 0 <= i < self@.len()
                        &&& descriptor@ == #[trigger] self@[i]
                        &&& self@[i].id == id@
                        &&& forall|j: int| 0 <= j < i ==> (#[trigger] self@[j]).id != id@
                        &&& first_match(self@, id@) == Some(i)
                    },
                None => forall|j: int| 0 <= j < self@.len() ==> (#[trigger] self@[j]).id != id@,
            },
            found.is_some() == first_match(self@, id@).is_some(),
    {
        match self.position(id) {
            Some(i) => Some(&self.connections[i]),
            None => None,
        }
    }

    /// Resolves `id`, given what the matched descriptor's pool answers when
    /// asked whether it is closed.
    pub fn settle(&self, id: &str, closed: bool) -> (outcome: Result<Resolution, DbError>)
        ensures
            outcome_view(outcome) == resolved(self@, id@, closed),
    {
        match self.find_connection_by_id(id) {
            None => Err(DbError::ConnectionNotFound),
            Some(descriptor) => match &descriptor.connection {
                None => Ok(
                    Resolution::MustConnect {
                        url: descriptor.url.clone(),
                        max_connections: MAX_POOL_CONNECTIONS,
                    },
                ),
                Some(DBPool::MySqlCon(_)) => Err(DbError::UnsupportedBackend),
                Some(DBPool::PostgresCon(pool)) => if closed {
                    Err(DbError::PoolClosed)
                } else {
                    Ok(Resolution::Ready(share_pool(pool)))
                },
            },
        }
    }

    /// Resolves `id`: asks the matched descriptor's pool whether it is closed
    /// and goes by the answer. A closed pool is never replaced.
    pub fn get_connection(&self, id: &str) -> (outcome: Result<Resolution, DbError>)
        ensures
            outcome_view(outcome) == resolved(self@, id@, true) || outcome_view(outcome)
                == resolved(self@, id@, false),
    {
        let closed = match self.find_connection_by_id(id) {
            Some(descriptor) => match &descriptor.connection {
                Some(DBPool::PostgresCon(pool)) => pool_is_closed(pool),
                _ => false,
            },
            None => false,
        };
        self.settle(id, closed)
    }

    /// Offers `pool` to the first descriptor whose id is `id`. It is stored,
    /// and `true` returned, if that descriptor had no pool; else the registry
    /// stays as it is and the offered pool is dropped.
    pub fn attach(&mut self, id: &str, pool: DBPool) -> (stored: bool)
        ensures
            final(self)@ == attached(old(self)@, id@, pool),
            stored == (first_match(old(self)@, id@) matches Some(i) && old(self)@[i].connection
                is None),
    {
        match self.position(id) {
            Some(i) => {
                if self.connections[i].connection.is_none() {
                    self.connections[i].connection = Some(pool);
                    assert(self@ =~= attached(old(self)@, id@, pool));
                    true
                } else {
                    false
                }
            },
            None => false,
        }
    }
}

} // verus!
