//! The listeners of a transport, each with the subscriber that feeds it.
use crate::status::{self, StatusView, UCode, UStatus};
use crate::table::{Table, TableKey};
use crate::text;
use vstd::prelude::*;

verus! {

/// A listener, together with the key expression that it listens to.
///
/// Listeners are told apart by a number that their owner chooses.
#[derive(Debug)]
pub struct ListenerKey {
    pub key_expr: String,
    pub listener: u64,
}

impl View for ListenerKey {
    type V = (Seq<char>, u64);

    open spec fn view(&self) -> (Seq<char>, u64) {
        (self.key_expr@, self.listener)
    }
}

impl TableKey for ListenerKey {
    fn same(&self, other: &ListenerKey) -> (b: bool) {
        self.key_expr == other.key_expr && self.listener == other.listener
    }
}

impl ListenerKey {
    /// Creates a key from its parts.
    pub fn new(key_expr: &str, listener: u64) -> (key: ListenerKey)
        ensures
            key@ == (key_expr@, listener),
    {
        ListenerKey { key_expr: key_expr.to_string(), listener }
    }
}

/// What a registration needs next.
#[derive(Clone, Copy, Debug, PartialEq, Eq, Structural)]
pub enum SubscriberStep {
    /// The listener is registered already.
    Registered,
    /// A subscriber is to be declared for the listener.
    Declare,
}

/// The status for a registration that goes beyond the maximum number of listeners.
pub open spec fn too_many_listeners(max: usize) -> StatusView {
    status::failure(
        UCode::ResourceExhausted,
        "Maximum number of owned listeners reached: "@ + text::numeral(max as nat, 10, false),
    )
}

/// The status for a listener that is not registered.
pub open spec fn no_such_listener(key_expr: Seq<char>) -> StatusView {
    status::failure(
        UCode::NotFound,
        "No such owned listener registered for key expression: "@ + key_expr,
    )
}

/// What a registration needs next, given the registered subscribers.
pub open spec fn subscriber_step<S>(
    subscribers: Map<(Seq<char>, u64), S>,
    max: usize,
    key: (Seq<char>, u64),
) -> Result<SubscriberStep, StatusView> {
    if subscribers.contains_key(key) {
        Ok(SubscriberStep::Registered)
    } else if subscribers.len() >= max {
        Err(too_many_listeners(max))
    } else {
        Ok(SubscriberStep::Declare)
    }
}

/// The registered subscribers and the outcome of a registration, given what came of the
/// declaration of a subscriber.
pub open spec fn subscriber_declared<S>(
    subscribers: Map<(Seq<char>, u64), S>,
    max: usize,
    key: (Seq<char>, u64),
    declared: Result<S, String>,
) -> (Map<(Seq<char>, u64), S>, Result<(), StatusView>) {
    match declared {
        Err(_) => (
            subscribers,
            Err(status::failure(UCode::Internal, "Failed to register owned listener"@)),
        ),
        Ok(subscriber) => match subscriber_step(subscribers, max, key) {
            Ok(SubscriberStep::Registered) => (subscribers, Ok(())),
            Ok(SubscriberStep::Declare) => (subscribers.insert(key, subscriber), Ok(())),
            Err(failure) => (subscribers, Err(failure)),
        },
    }
}

/// The registered listeners with their subscribers, up to a maximum number.
pub struct ListenerRegistry<S> {
    owned_subscribers: Table<ListenerKey, S>,
    max_subscribers: usize,
}

impl<S> ListenerRegistry<S> {
    /// The registered subscribers.
    pub closed spec fn subscribers(self) -> Map<(Seq<char>, u64), S> {
        self.owned_subscribers@
    }

    /// The maximum number of listeners.
    pub closed spec fn max(self) -> usize {
        self.max_subscribers
    }

    #[verifier::type_invariant]
    spec fn well_formed(self) -> bool {
        &&& self.owned_subscribers@.dom().finite()
        &&& self.owned_subscribers@.len() <= self.max_subscribers
    }

    /// Creates a registry without listeners.
    pub fn new(max_subscribers: usize) -> (registry: Self)
        ensures
            registry.subscribers() == Map::<(Seq<char>, u64), S>::empty(),
            registry.max() == max_subscribers,
    {
        ListenerRegistry { owned_subscribers: Table::new(), max_subscribers }
    }

    /// The number of registered listeners, which never exceeds the maximum.
    pub fn len(&self) -> (n: usize)
        ensures
            n == self.subscribers().len(),
            self.subscribers().dom().finite(),
            n <= self.max(),
    {
        proof {
            use_type_invariant(self);
        }
        self.owned_subscribers.len()
    }

    /// Whether a listener is registered for a key expression.
    pub fn contains(&self, key_expr: &str, listener: u64) -> (b: bool)
        ensures
            b == self.subscribers().contains_key((key_expr@, listener)),
    {
        self.owned_subscribers.contains_key(&ListenerKey::new(key_expr, listener))
    }

    /// Begins the registration of a listener for a key expression.
    pub fn register_owned_subscriber(&self, zenoh_key: &str, listener: u64) -> (r: Result<
        SubscriberStep,
        UStatus,
    >)
        ensures
            match subscriber_step(self.subscribers(), self.max(), (zenoh_key@, listener)) {
                Ok(step) => r matches Ok(s) && s == step,
                Err(failure) => r matches Err(e) && e@ == failure,
            },
    {
        if self.contains(zenoh_key, listener) {
            return Ok(SubscriberStep::Registered);
        }
        if self.owned_subscribers.len() >= self.max_subscribers {
            return Err(
                UStatus::fail_with_code(
                    UCode::ResourceExhausted,
                    text::join(
                        "Maximum number of owned listeners reached: ",
                        text::to_numeral(self.max_subscribers as u64, 10, false).as_str(),
                    ),
                ),
            );
        }
        Ok(SubscriberStep::Declare)
    }

    /// Ends the registration of a listener with what came of the declaration of its
    /// subscriber.
    pub fn owned_subscriber_declared(
        &mut self,
        zenoh_key: &str,
        listener: u64,
        declared: Result<S, String>,
    ) -> (r: Result<(), UStatus>)
        ensures
            final(self).max() == old(self).max(),
            ({
                let (subscribers, outcome) = subscriber_declared(
                    old(self).subscribers(),
                    old(self).max(),
                    (zenoh_key@, listener),
                    declared,
                );
                &&& final(self).subscribers() == subscribers
                &&& match outcome {
                    Ok(_) => r is Ok,
                    Err(failure) => r matches Err(e) && e@ == failure,
                }
            }),
    {
        proof {
            use_type_invariant(&*self);
        }
        let subscriber = match declared {
            Ok(subscriber) => subscriber,
            Err(_) => {
                return Err(UStatus::fail_with(UCode::Internal, "Failed to register owned listener"));
            },
        };
        match self.register_owned_subscriber(zenoh_key, listener) {
            Ok(SubscriberStep::Registered) => Ok(()),
            Ok(SubscriberStep::Declare) => {
                let mut table: Table<ListenerKey, S> = Table::new();
                std::mem::swap(&mut table, &mut self.owned_subscribers);
                table.insert(ListenerKey::new(zenoh_key, listener), subscriber);
                self.owned_subscribers = table;
                Ok(())
            },
            Err(status) => Err(status),
        }
    }

    /// Takes a listener out of the registry and gives its subscriber.
    pub fn unregister_owned(&mut self, key_expr: &str, listener: u64) -> (r: Result<S, UStatus>)
        ensures
            final(self).max() == old(self).max(),
            final(self).subscribers() == old(self).subscribers().remove((key_expr@, listener)),
            match r {
                Ok(subscriber) => old(self).subscribers().contains_key((key_expr@, listener))
                    && subscriber == old(self).subscribers()[(key_expr@, listener)],
                Err(e) => !old(self).subscribers().contains_key((key_expr@, listener)) && e@
                    == no_such_listener(key_expr@),
            },
    {
        proof {
            use_type_invariant(&*self);
        }
        let mut table: Table<ListenerKey, S> = Table::new();
        std::mem::swap(&mut table, &mut self.owned_subscribers);
        let removed = table.remove(&ListenerKey::new(key_expr, listener));
        self.owned_subscribers = table;
        match removed {
            Some(subscriber) => Ok(subscriber),
            None => Err(
                UStatus::fail_with_code(
                    UCode::NotFound,
                    text::join(
                        "No such owned listener registered for key expression: ",
                        key_expr,
                    ),
                ),
            ),
        }
    }
}

/// A registration keeps the number of listeners within the maximum.
pub proof fn law_listeners_within_maximum<S>(
    subscribers: Map<(Seq<char>, u64), S>,
    max: usize,
    key: (Seq<char>, u64),
    declared: Result<S, String>,
)
    requires
        subscribers.dom().finite(),
        subscribers.len() <= max,
    ensures
        subscriber_declared(subscribers, max, key, declared).0.dom().finite(),
        subscriber_declared(subscribers, max, key, declared).0.len() <= max,
{
}

/// To register a listener a second time changes nothing.
pub proof fn law_registration_is_idempotent<S>(
    subscribers: Map<(Seq<char>, u64), S>,
    max: usize,
    key: (Seq<char>, u64),
    first: Result<S, String>,
    second: S,
)
    requires
        subscriber_declared(subscribers, max, key, first).1 is Ok,
    ensures
        ({
            let registered = subscriber_declared(subscribers, max, key, first).0;
            &&& subscriber_step(registered, max, key) == Ok::<SubscriberStep, StatusView>(
                SubscriberStep::Registered,
            )
            &&& subscriber_declared(registered, max, key, Ok(second)).0 == registered
        }),
{
}

/// A registration that fails changes nothing.
pub proof fn law_failed_registration_changes_nothing<S>(
    subscribers: Map<(Seq<char>, u64), S>,
    max: usize,
    key: (Seq<char>, u64),
    declared: Result<S, String>,
)
    requires
        subscriber_declared(subscribers, max, key, declared).1 is Err,
    ensures
        subscriber_declared(subscribers, max, key, declared).0 == subscribers,
{
}

/// To take out a listener that was just registered restores what was there before.
pub proof fn law_unregister_undoes_register<S>(
    subscribers: Map<(Seq<char>, u64), S>,
    max: usize,
    key: (Seq<char>, u64),
    subscriber: S,
)
    requires
        !subscribers.contains_key(key),
        subscriber_declared(subscribers, max, key, Ok(subscriber)).1 is Ok,
    ensures
        subscriber_declared(subscribers, max, key, Ok(subscriber)).0.contains_key(key),
        subscriber_declared(subscribers, max, key, Ok(subscriber)).0.remove(key) == subscribers,
{
    assert(subscribers.insert(key, subscriber).remove(key) =~= subscribers);
}

/// A registration concerns no other listener and no other key expression.
pub proof fn law_registrations_are_independent<S>(
    subscribers: Map<(Seq<char>, u64), S>,
    max: usize,
    key: (Seq<char>, u64),
    declared: Result<S, String>,
    other: (Seq<char>, u64),
)
    requires
        other != key,
    ensures
        ({
            let after = subscriber_declared(subscribers, max, key, declared).0;
            &&& after.contains_key(other) == subscribers.contains_key(other)
            &&& subscribers.contains_key(other) ==> after[other] == subscribers[other]
        }),
{
}

/// A listener that is registered needs nothing, a new one needs a subscriber as long as the
/// maximum is not reached, and beyond it a new one is refused.
pub proof fn law_registration_needs<S>(
    subscribers: Map<(Seq<char>, u64), S>,
    max: usize,
    key: (Seq<char>, u64),
)
    ensures
        subscriber_step(subscribers, max, key) == Ok::<SubscriberStep, StatusView>(
            SubscriberStep::Registered,
        ) <==> subscribers.contains_key(key),
        subscriber_step(subscribers, max, key) == Ok::<SubscriberStep, StatusView>(
            SubscriberStep::Declare,
        ) <==> !subscribers.contains_key(key) && subscribers.len() < max,
        !subscribers.contains_key(key) && subscribers.len() >= max ==> (subscriber_step(
            subscribers,
            max,
            key,
        ) matches Err(s) && s.code == UCode::ResourceExhausted && s.message
            == "Maximum number of owned listeners reached: "@ + text::numeral(
            max as nat,
            10,
            false,
        )),
{
}

/// A new listener is registered with the subscriber that was declared for it, and a listener
/// that is registered keeps the one it has.
pub proof fn law_listener_is_fed_by_its_first_subscriber<S>(
    subscribers: Map<(Seq<char>, u64), S>,
    max: usize,
    key: (Seq<char>, u64),
    subscriber: S,
)
    ensures
        ({
            let (after, outcome) = subscriber_declared(subscribers, max, key, Ok(subscriber));
            &&& outcome is Ok <==> subscribers.contains_key(key) || subscribers.len() < max
            &&& outcome is Ok ==> after.contains_key(key)
            &&& subscribers.contains_key(key) ==> after[key] == subscribers[key]
            &&& outcome is Ok && !subscribers.contains_key(key) ==> after[key] == subscriber
        }),
{
}

/// A subscriber that cannot be declared is an internal failure, and a listener that is not
/// registered is not found.
pub proof fn law_registry_failures<S>(
    subscribers: Map<(Seq<char>, u64), S>,
    max: usize,
    key: (Seq<char>, u64),
    error: String,
)
    ensures
        subscriber_declared(subscribers, max, key, Err(error)).0 == subscribers,
        subscriber_declared(subscribers, max, key, Err(error)).1 matches Err(s) && s.code
            == UCode::Internal && s.message == "Failed to register owned listener"@,
        no_such_listener(key.0).code == UCode::NotFound,
        no_such_listener(key.0).message
            == "No such owned listener registered for key expression: "@ + key.0,
{
}

} // verus!
