//! The request builder: the values that a call passes, and the query that the
//! registry lets them form for a server at a given version.

use crate::error::Error;
use crate::registry::{Parameter, ParameterView};
use crate::text::{camel_text, decimal_text, push_camel, push_char, push_decimal};
use crate::version::{at_least, satisfies, Version};
use vstd::prelude::*;
use vstd::string::*;

verus! {

/// Turns what a caller passes for a parameter into an optional value: an
/// optional value stays as it is.
pub struct IntoOptionHelper<T>(pub T);

impl<T> IntoOptionHelper<Option<T>> {
    pub fn into_option(self) -> (r: Option<T>)
        ensures
            r == self.0,
    {
        self.0
    }
}

/// The other half of `IntoOptionHelper`: a plain value becomes a present one.
pub trait IntoOptionFallback<T>: Sized {
    spec fn wrapped(self) -> Option<T>;

    fn into_option(self) -> (r: Option<T>)
        ensures
            r == self.wrapped(),
    ;
}

impl<T> IntoOptionFallback<T> for IntoOptionHelper<T> {
    open spec fn wrapped(self) -> Option<T> {
        Some(self.0)
    }

    fn into_option(self) -> (r: Option<T>) {
        Some(self.0)
    }
}

/// The value of one argument.
#[derive(Debug, PartialEq, Eq)]
pub enum ArgValue {
    Text(String),
    Number(u64),
    Flag(bool),
}

/// The value of an argument, as contracts see it.
pub ghost enum ArgValueView {
    Text(Seq<char>),
    Number(u64),
    Flag(bool),
}

impl DeepView for ArgValue {
    type V = ArgValueView;

    open spec fn deep_view(&self) -> ArgValueView {
        match self {
            ArgValue::Text(text) => ArgValueView::Text(text@),
            ArgValue::Number(n) => ArgValueView::Number(*n),
            ArgValue::Flag(b) => ArgValueView::Flag(*b),
        }
    }
}

/// The natural text of a value: a text as it is, with nothing escaped; a
/// number in decimal; a flag as `true` or `false`.
pub open spec fn rendered(value: ArgValueView) -> Seq<char> {
    match value {
        ArgValueView::Text(text) => text,
        ArgValueView::Number(n) => decimal_text(n as nat),
        ArgValueView::Flag(b) => if b {
            "true"@
        } else {
            "false"@
        },
    }
}

impl ArgValue {
    /// Appends the value's natural text to `out`.
    pub fn push_to(&self, out: &mut String)
        ensures
            final(out)@ == old(out)@ + rendered(self.deep_view()),
    {
        match self {
            ArgValue::Text(text) => {
                out.append(text.as_str());
            },
            ArgValue::Number(n) => {
                push_decimal(out, *n);
            },
            ArgValue::Flag(b) => {
                if *b {
                    out.append("true");
                } else {
                    out.append("false");
                }
            },
        }
    }
}

/// The value that a call supplies for the parameter at position `i`: none
/// where the call passes fewer values than that.
pub open spec fn arg_at(args: Seq<Option<ArgValueView>>, i: int) -> Option<ArgValueView> {
    if 0 <= i < args.len() {
        args[i]
    } else {
        None
    }
}

/// The refusal of an operation that needs a newer server.
pub open spec fn api_mismatch(connected: Version, needed: Version) -> Error {
    Error::APIVersionMismatch(
        connected.major,
        connected.minor,
        connected.patch,
        needed.major,
        needed.minor,
        needed.patch,
    )
}

/// The refusal of an argument that needs a newer server.
pub open spec fn args_mismatch(connected: Version, needed: Version) -> Error {
    Error::ArgsVersionMismatch(
        connected.major,
        connected.minor,
        connected.patch,
        needed.major,
        needed.minor,
        needed.patch,
    )
}

/// One `&name=value` pair.
pub open spec fn pair(name: Seq<char>, value: ArgValueView) -> Seq<char> {
    seq!['&'] + camel_text(name) + seq!['='] + rendered(value)
}

/// The query that the parameters from position `i` on add to `acc`. A
/// parameter without a value is passed over. A parameter with a value is
/// checked against the server's version, on its own account, and refused if
/// the server is too old; else its pair is appended.
pub open spec fn query(
    connected: Version,
    params: Seq<ParameterView>,
    args: Seq<Option<ArgValueView>>,
    i: nat,
    acc: Seq<char>,
) -> Result<Seq<char>, Error>
    decreases params.len() - i,
{
    if i >= params.len() {
        Ok(acc)
    } else {
        match arg_at(args, i as int) {
            Some(value) => if at_least(connected, params[i as int].since) {
                query(connected, params, args, i + 1, acc + pair(params[i as int].name, value))
            } else {
                Err(args_mismatch(connected, params[i as int].since))
            },
            None => query(connected, params, args, i + 1, acc),
        }
    }
}

/// The position of the first required parameter from `i` on for which the
/// call supplies no value.
pub open spec fn missing_from(
    params: Seq<ParameterView>,
    args: Seq<Option<ArgValueView>>,
    i: nat,
) -> Option<nat>
    decreases params.len() - i,
{
    if i >= params.len() {
        None
    } else if params[i as int].required && arg_at(args, i as int) is None {
        Some(i)
    } else {
        missing_from(params, args, i + 1)
    }
}

/// The view of a piece of text that may have been refused.
pub open spec fn text_view(r: Result<String, Error>) -> Result<Seq<char>, Error> {
    match r {
        Ok(text) => Ok(text@),
        Err(e) => Err(e),
    }
}

/// Forms the `&name=value` pairs of a call, in the order of the parameters.
pub fn build_query(connected: Version, params: &Vec<Parameter>, args: &Vec<Option<ArgValue>>) -> (r:
    Result<String, Error>)
    ensures
        text_view(r) == query(connected, params.deep_view(), args.deep_view(), 0, Seq::empty()),
{
    let ghost pv = params.deep_view();
    let ghost av = args.deep_view();
    let mut out = String::new();
    let mut i: usize = 0;
    while i < params.len()
        invariant
            i <= params.len(),
            pv == params.deep_view(),
            av == args.deep_view(),
            query(connected, pv, av, 0, Seq::empty()) == query(connected, pv, av, i as nat, out@),
        decreases params.len() - i,
    {
        let ghost before = out@;
        assert(pv[i as int] == params@[i as int].deep_view());
        if i < args.len() {
            assert(av[i as int] == args@[i as int].deep_view());
            match &args[i] {
                Some(value) => {
                    let needed = params[i].since;
                    if !satisfies(connected, needed) {
                        return Err(
                            Error::ArgsVersionMismatch(
                                connected.major,
                                connected.minor,
                                connected.patch,
                                needed.major,
                                needed.minor,
                                needed.patch,
                            ),
                        );
                    }
                    push_char(&mut out, '&');
                    push_camel(&mut out, params[i].name);
                    push_char(&mut out, '=');
                    value.push_to(&mut out);
                    assert(out@ =~= before + pair(pv[i as int].name, value.deep_view()));
                },
                None => {},
            }
        }
        i += 1;
    }
    Ok(out)
}

/// The first required parameter that a call leaves out, if there is one.
pub fn first_missing(params: &Vec<Parameter>, args: &Vec<Option<ArgValue>>) -> (r: Option<usize>)
    ensures
        match r {
            Some(i) => missing_from(params.deep_view(), args.deep_view(), 0) == Some(i as nat),
            None => missing_from(params.deep_view(), args.deep_view(), 0) is None,
        },
{
    let ghost pv = params.deep_view();
    let ghost av = args.deep_view();
    let mut i: usize = 0;
    while i < params.len()
        invariant
            i <= params.len(),
            pv == params.deep_view(),
            av == args.deep_view(),
            missing_from(pv, av, 0) == missing_from(pv, av, i as nat),
        decreases params.len() - i,
    {
        assert(pv[i as int] == params@[i as int].deep_view());
        if params[i].required {
            if i >= args.len() {
                return Some(i);
            }
            assert(av[i as int] == args@[i as int].deep_view());
            if args[i].is_none() {
                return Some(i);
            }
        }
        i += 1;
    }
    None
}

/// A value for a parameter that the server is too old for is refused, and the
/// error names the server's version and a version that the server does not
/// reach. The refusal comes on the parameter's own account: nothing is asked
/// of the operation that the parameter belongs to.
pub proof fn lemma_newer_argument_is_refused(
    connected: Version,
    params: Seq<ParameterView>,
    args: Seq<Option<ArgValueView>>,
    i: nat,
    acc: Seq<char>,
    k: nat,
)
    requires
        i <= k < params.len(),
        arg_at(args, k as int) is Some,
        !at_least(connected, params[k as int].since),
    ensures
        query(connected, params, args, i, acc) matches Err(
            Error::ArgsVersionMismatch(a, b, c, d, e, f),
        ) && (Version { major: a, minor: b, patch: c }) == connected && !at_least(
            connected,
            Version { major: d, minor: e, patch: f },
        ),
    decreases k - i,
{
    if i < k {
        match arg_at(args, i as int) {
            Some(value) => {
                if at_least(connected, params[i as int].since) {
                    lemma_newer_argument_is_refused(
                        connected,
                        params,
                        args,
                        i + 1,
                        acc + pair(params[i as int].name, value),
                        k,
                    );
                }
            },
            None => {
                lemma_newer_argument_is_refused(connected, params, args, i + 1, acc, k);
            },
        }
    }
}

/// A query is formed only of what the server takes: where it is formed,
/// every parameter that has a value is one that the server is new enough for.
pub proof fn lemma_query_holds_supported_arguments(
    connected: Version,
    params: Seq<ParameterView>,
    args: Seq<Option<ArgValueView>>,
    acc: Seq<char>,
)
    requires
        query(connected, params, args, 0, acc) is Ok,
    ensures
        forall|k: int|
            0 <= k < params.len() && (#[trigger] arg_at(args, k)) is Some ==> at_least(
                connected,
                params[k].since,
            ),
{
    assert forall|k: int| 0 <= k < params.len() && (#[trigger] arg_at(args, k)) is Some implies at_least(
        connected,
        params[k].since,
    ) by {
        if !at_least(connected, params[k].since) {
            lemma_newer_argument_is_refused(connected, params, args, 0, acc, k as nat);
        }
    }
}

} // verus!
