//! The rules that the handler attributes apply to the function they stand
//! on: which name a handler is registered under, and when it is refused.

use vstd::prelude::*;

verus! {

/// Why a handler is refused.
#[derive(Clone, Debug, PartialEq, Eq)]
pub enum HandlerError {
    /// An argument of the attribute is not one it knows.
    UnsupportedProperty,
    /// The event is not one that handlers can be registered for.
    UnsupportedEventName(String),
    /// A second event name was given after this one.
    EventNameAlreadySet(String),
    /// No event name was given.
    EventNameNotSet,
    /// The handler is not an `async fn`.
    HandlerMustBeAsync,
}

fn same_text(a: &str, b: &str) -> (r: bool)
    ensures
        r == (a@ == b@),
{
    String::from_str(a) == String::from_str(b)
}

/// The name of the function that carries a handler's metadata:
/// `__omu_` + the handler's name + `_metadata`.
pub fn metadata_fn_name(fn_name: &str) -> (r: String)
    ensures
        r@ == "__omu_"@ + fn_name@ + "_metadata"@,
{
    let mut name = String::from_str("__omu_");
    name.append(fn_name);
    name.append("_metadata");
    name
}

/// What the arguments of a slash command attribute say of the command's
/// name: `Some` where `name = ".."` was given (the last one counts),
/// `None` where no argument was given at all. An argument under any other
/// key is refused.
pub open spec fn spec_slash_argument(keys: Seq<(Seq<char>, Seq<char>)>) -> Result<
    Option<Seq<char>>,
    HandlerError,
>
    decreases keys.len(),
{
    if keys.len() == 0 {
        Ok(None)
    } else {
        match spec_slash_argument(keys.drop_last()) {
            Err(e) => Err(e),
            Ok(_) => if keys.last().0 == "name"@ {
                Ok(Some(keys.last().1))
            } else {
                Err(HandlerError::UnsupportedProperty)
            },
        }
    }
}

/// Reads the arguments of a slash command attribute, given as pairs of
/// key and value.
pub fn slash_argument(arguments: &Vec<(String, String)>) -> (r: Result<Option<String>, HandlerError>)
    ensures
        match spec_slash_argument(arguments@.map_values(|a: (String, String)| (a.0@, a.1@))) {
            Ok(Some(name)) => r matches Ok(Some(n)) && n@ == name,
            Ok(None) => r matches Ok(None),
            Err(e) => r == Err::<Option<String>, HandlerError>(e),
        },
{
    let ghost keys = arguments@.map_values(|a: (String, String)| (a.0@, a.1@));
    let mut name: Option<String> = None;
    let mut i: usize = 0;
    while i < arguments.len()
        invariant
            i <= arguments.len(),
            keys == arguments@.map_values(|a: (String, String)| (a.0@, a.1@)),
            match spec_slash_argument(keys.take(i as int)) {
                Ok(Some(text)) => name matches Some(n) && n@ == text,
                Ok(None) => name is None,
                Err(_) => false,
            },
        decreases arguments.len() - i,
    {
        assert(keys.take(i + 1).drop_last() =~= keys.take(i as int));
        assert(keys.take(i + 1).last() == keys[i as int]);
        if same_text(arguments[i].0.as_str(), "name") {
            name = Some(arguments[i].1.clone());
        } else {
            proof {
                lemma_slash_error_stays(keys, i + 1);
            }
            return Err(HandlerError::UnsupportedProperty);
        }
        i = i + 1;
    }
    assert(keys.take(i as int) =~= keys);
    Ok(name)
}

/// Once an argument was refused, no later argument makes up for it.
pub proof fn lemma_slash_error_stays(keys: Seq<(Seq<char>, Seq<char>)>, n: int)
    requires
        0 <= n <= keys.len(),
        spec_slash_argument(keys.take(n)) is Err,
    ensures
        spec_slash_argument(keys) == spec_slash_argument(keys.take(n)),
    decreases keys.len() - n,
{
    if n < keys.len() {
        assert(keys.take(n + 1).drop_last() =~= keys.take(n));
        lemma_slash_error_stays(keys, n + 1);
    } else {
        assert(keys.take(n) =~= keys);
    }
}

/// The name that a slash command is registered under: the name given in
/// the attribute, or the handler's own name without one.
pub open spec fn spec_slash_name(
    argument: Option<Seq<char>>,
    fn_name: Seq<char>,
    is_async: bool,
) -> Result<Seq<char>, HandlerError> {
    if !is_async {
        Err(HandlerError::HandlerMustBeAsync)
    } else {
        match argument {
            Some(name) => Ok(name),
            None => Ok(fn_name),
        }
    }
}

/// The name that a slash command is registered under. A handler that is
/// not `async` is refused.
pub fn slash_name(argument: Option<String>, fn_name: &str, is_async: bool) -> (r: Result<
    String,
    HandlerError,
>)
    ensures
        match spec_slash_name(crate::gateway::event::text_of(argument), fn_name@, is_async) {
            Ok(name) => r matches Ok(n) && n@ == name,
            Err(e) => r == Err::<String, HandlerError>(e),
        },
{
    if !is_async {
        Err(HandlerError::HandlerMustBeAsync)
    } else {
        match argument {
            Some(name) => Ok(name),
            None => Ok(String::from_str(fn_name)),
        }
    }
}

/// Whether handlers can be registered for the event of this name. So far
/// only `ready` can.
pub open spec fn is_supported_event(name: Seq<char>) -> bool {
    name == "ready"@
}

/// The event that an event attribute names. Exactly one name must be
/// given, and it must be the name of a supported event. The first fault
/// from the left is the one reported.
pub fn event_name(arguments: &Vec<String>, is_async: bool) -> (r: Result<String, HandlerError>)
    ensures
        match r {
            Ok(name) => arguments@.len() == 1 && name@ == arguments@[0]@ && is_supported_event(
                name@,
            ) && is_async,
            Err(HandlerError::EventNameNotSet) => arguments@.len() == 0,
            Err(HandlerError::UnsupportedEventName(name)) => arguments@.len() >= 1 && name@
                == arguments@[0]@ && !is_supported_event(name@),
            Err(HandlerError::EventNameAlreadySet(name)) => arguments@.len() >= 2 && name@
                == arguments@[0]@ && is_supported_event(name@),
            Err(HandlerError::HandlerMustBeAsync) => arguments@.len() == 1 && is_supported_event(
                arguments@[0]@,
            ) && !is_async,
            Err(HandlerError::UnsupportedProperty) => false,
        },
{
    if arguments.len() == 0 {
        return Err(HandlerError::EventNameNotSet);
    }
    let name = arguments[0].clone();
    if !same_text(name.as_str(), "ready") {
        return Err(HandlerError::UnsupportedEventName(name));
    }
    if arguments.len() > 1 {
        return Err(HandlerError::EventNameAlreadySet(name));
    }
    if !is_async {
        return Err(HandlerError::HandlerMustBeAsync);
    }
    Ok(name)
}

} // verus!
