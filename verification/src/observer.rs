//! The notification sink for completed CRUD actions: an observer list and the
//! message each action produces. Only the final write of a log line is
//! trusted; the message text is verified.

use std::io::Write;

use vstd::prelude::*;
use vstd::string::StringExecFns;

verus! {

/// A receiver of notification messages.
pub trait Observer {
    /// Delivers one message.
    fn update(&self, message: &str);
}

/// An observer that prints each message as a log line.
pub struct LoggerObserver;

/// Relies on std::io::stdout via writeln: prints "Logging: {message}" as one
/// line; a write failure is ignored, as nothing is promised here.
#[verifier::external_body]
fn write_log_line(message: &str) {
    let mut out = std::io::stdout();
    let _ = writeln!(out, "Logging: {}", message);
}

impl Observer for LoggerObserver {
    fn update(&self, message: &str) {
        write_log_line(message);
    }
}

/// The message announcing one completed CRUD action on an entity.
pub open spec fn crud_message_spec(action: Seq<char>, entity: Seq<char>) -> Seq<char> {
    action + " action performed on "@ + entity
}

/// Builds the message announcing one completed CRUD action.
pub fn crud_message(action: &str, entity: &str) -> (m: String)
    ensures
        m@ == crud_message_spec(action@, entity@),
{
    let mut m: String = action.to_owned();
    m.append(" action performed on ");
    m.append(entity);
    proof {
        assert(m@ =~= crud_message_spec(action@, entity@));
    }
    m
}

/// A list of observers, each told of every notification.
pub struct Observable<O: Observer> {
    observers: Vec<O>,
}

impl<O: Observer> Observable<O> {
    /// The registered observers, in registration order.
    pub closed spec fn observers(&self) -> Seq<O> {
        self.observers@
    }

    /// An observable with no observers.
    pub fn new() -> (r: Self)
        ensures
            r.observers() == Seq::<O>::empty(),
    {
        let r = Observable { observers: Vec::new() };
        proof {
            assert(r.observers() =~= Seq::<O>::empty());
        }
        r
    }

    /// Registers one more observer.
    pub fn add_observer(&mut self, observer: O)
        ensures
            final(self).observers() == old(self).observers().push(observer),
    {
        self.observers.push(observer);
    }

    /// Tells every observer that an action was performed on an entity.
    pub fn notify_crud(&self, action: &str, entity: &str) {
        let message = crud_message(action, entity);
        self.notify_observers(message.as_str());
    }

    /// Delivers one message to every observer.
    pub fn notify_observers(&self, message: &str) {
        let mut i: usize = 0;
        while i < self.observers.len()
            invariant
                i <= self.observers.len(),
            decreases self.observers.len() - i,
        {
            self.observers[i].update(message);
            i += 1;
        }
    }
}

} // verus!
