//! Choosing the propagators that carry trace context across processes.
//!
//! The choice is a comma-separated list of names, as the `OTEL_PROPAGATORS`
//! environment variable holds it. Some propagators need support that a
//! build may leave out; asking for one of those is an error at start-up.

use crate::init::error::{Error, ErrorView};
use crate::text::{
    chars_of, find_class, lowercase, same_text, to_lowercase, trim, trim_range, until, CharClass,
};
use vstd::prelude::*;

verus! {

/// A propagator that can be installed.
#[derive(Clone, Copy, Debug, PartialEq, Eq, Structural)]
pub enum PropagatorKind {
    /// W3C Trace Context.
    TraceContext,
    /// W3C Baggage.
    Baggage,
    /// B3 in a single header.
    B3,
    /// B3 in several headers.
    B3Multi,
    /// Jaeger.
    Jaeger,
    /// AWS X-Ray.
    Xray,
}

/// The optional propagators that a build supports.
#[derive(Clone, Copy, Debug, PartialEq, Eq, Structural)]
pub struct PropagatorSupport {
    /// `b3` and `b3multi`.
    pub zipkin: bool,
    /// `jaeger`.
    pub jaeger: bool,
    /// `xray`.
    pub xray: bool,
}

impl PropagatorSupport {
    /// A build without the optional propagators.
    pub fn none() -> (support: PropagatorSupport)
        ensures
            support == (PropagatorSupport { zipkin: false, jaeger: false, xray: false }),
    {
        PropagatorSupport { zipkin: false, jaeger: false, xray: false }
    }
}

/// Why a name stands for no propagator.
#[derive(Debug)]
pub enum PropagatorError {
    /// The propagator is known, and the build does not support it.
    MissingFeature(PropagatorKind),
    /// No propagator has this name.
    Unsupported(String),
}

/// Why a name stands for no propagator, as a mathematical value.
pub enum PropagatorFault {
    MissingFeature(PropagatorKind),
    Unsupported(Seq<char>),
}

impl View for PropagatorError {
    type V = PropagatorFault;

    open spec fn view(&self) -> PropagatorFault {
        match self {
            PropagatorError::MissingFeature(k) => PropagatorFault::MissingFeature(*k),
            PropagatorError::Unsupported(n) => PropagatorFault::Unsupported(n@),
        }
    }
}

impl PropagatorKind {
    /// The name that selects the propagator.
    pub open spec fn spec_name(self) -> Seq<char> {
        match self {
            PropagatorKind::TraceContext => "tracecontext"@,
            PropagatorKind::Baggage => "baggage"@,
            PropagatorKind::B3 => "b3"@,
            PropagatorKind::B3Multi => "b3multi"@,
            PropagatorKind::Jaeger => "jaeger"@,
            PropagatorKind::Xray => "xray"@,
        }
    }

    /// The name that selects the propagator.
    pub fn name(self) -> (name: &'static str)
        ensures
            name@ == self.spec_name(),
    {
        match self {
            PropagatorKind::TraceContext => "tracecontext",
            PropagatorKind::Baggage => "baggage",
            PropagatorKind::B3 => "b3",
            PropagatorKind::B3Multi => "b3multi",
            PropagatorKind::Jaeger => "jaeger",
            PropagatorKind::Xray => "xray",
        }
    }

    /// The build feature that the propagator needs; nothing for those that
    /// are always there.
    pub open spec fn spec_feature(self) -> Seq<char> {
        match self {
            PropagatorKind::TraceContext => Seq::empty(),
            PropagatorKind::Baggage => Seq::empty(),
            PropagatorKind::B3 => "zipkin"@,
            PropagatorKind::B3Multi => "zipkin"@,
            PropagatorKind::Jaeger => "jaeger"@,
            PropagatorKind::Xray => "xray"@,
        }
    }

    /// The build feature that the propagator needs.
    pub fn feature(self) -> (feature: &'static str)
        ensures
            feature@ == self.spec_feature(),
    {
        match self {
            PropagatorKind::TraceContext => {
                proof {
                    reveal_strlit("");
                }
                ""
            },
            PropagatorKind::Baggage => {
                proof {
                    reveal_strlit("");
                }
                ""
            },
            PropagatorKind::B3 => "zipkin",
            PropagatorKind::B3Multi => "zipkin",
            PropagatorKind::Jaeger => "jaeger",
            PropagatorKind::Xray => "xray",
        }
    }
}

impl PropagatorFault {
    /// The fault in words.
    pub open spec fn message(self) -> Seq<char> {
        match self {
            PropagatorFault::MissingFeature(kind) =>
                "unsupported propagators form env OTEL_PROPAGATORS: '"@ + kind.spec_name()
                    + "', try to enable compile feature '"@ + kind.spec_feature() + "'"@,
            PropagatorFault::Unsupported(name) =>
                "unsupported propagators form env OTEL_PROPAGATORS: '"@ + name + "'"@,
        }
    }
}

impl PropagatorError {
    /// The fault in words.
    pub fn to_string(&self) -> (s: String)
        ensures
            s@ == self@.message(),
    {
        let mut s = "unsupported propagators form env OTEL_PROPAGATORS: '".to_owned();
        match self {
            PropagatorError::MissingFeature(kind) => {
                s.append(kind.name());
                s.append("', try to enable compile feature '");
                s.append(kind.feature());
                s.append("'");
            },
            PropagatorError::Unsupported(name) => {
                s.append(name.as_str());
                s.append("'");
            },
        }
        s
    }

    /// The fault as a failure of the set-up.
    pub fn into_error(self) -> (e: Error)
        ensures
            e@ == ErrorView::TraceError(self@.message()),
    {
        Error::TraceError(self.to_string())
    }
}

/// The propagator that a name selects. `none` selects nothing, and is no
/// error. Names are matched as they are: in lower case, without space
/// around them.
pub open spec fn propagator_of(name: Seq<char>, support: PropagatorSupport) -> Result<
    Option<PropagatorKind>,
    PropagatorFault,
> {
    if name == "tracecontext"@ {
        Ok(Some(PropagatorKind::TraceContext))
    } else if name == "baggage"@ {
        Ok(Some(PropagatorKind::Baggage))
    } else if name == "b3"@ {
        if support.zipkin {
            Ok(Some(PropagatorKind::B3))
        } else {
            Err(PropagatorFault::MissingFeature(PropagatorKind::B3))
        }
    } else if name == "b3multi"@ {
        if support.zipkin {
            Ok(Some(PropagatorKind::B3Multi))
        } else {
            Err(PropagatorFault::MissingFeature(PropagatorKind::B3Multi))
        }
    } else if name == "jaeger"@ {
        if support.jaeger {
            Ok(Some(PropagatorKind::Jaeger))
        } else {
            Err(PropagatorFault::MissingFeature(PropagatorKind::Jaeger))
        }
    } else if name == "xray"@ {
        if support.xray {
            Ok(Some(PropagatorKind::Xray))
        } else {
            Err(PropagatorFault::MissingFeature(PropagatorKind::Xray))
        }
    } else if name == "none"@ {
        Ok(None)
    } else {
        Err(PropagatorFault::Unsupported(name))
    }
}

/// The outcome of a look-up, as a mathematical value.
pub open spec fn lookup_view(r: Result<Option<PropagatorKind>, PropagatorError>) -> Result<
    Option<PropagatorKind>,
    PropagatorFault,
> {
    match r {
        Ok(k) => Ok(k),
        Err(e) => Err(e@),
    }
}

/// Looks up the propagator that a name selects.
pub fn propagator_from_string(v: &str, support: PropagatorSupport) -> (r: Result<
    Option<PropagatorKind>,
    PropagatorError,
>)
    ensures
        lookup_view(r) == propagator_of(v@, support),
{
    if same_text(v, "tracecontext") {
        Ok(Some(PropagatorKind::TraceContext))
    } else if same_text(v, "baggage") {
        Ok(Some(PropagatorKind::Baggage))
    } else if same_text(v, "b3") {
        if support.zipkin {
            Ok(Some(PropagatorKind::B3))
        } else {
            Err(PropagatorError::MissingFeature(PropagatorKind::B3))
        }
    } else if same_text(v, "b3multi") {
        if support.zipkin {
            Ok(Some(PropagatorKind::B3Multi))
        } else {
            Err(PropagatorError::MissingFeature(PropagatorKind::B3Multi))
        }
    } else if same_text(v, "jaeger") {
        if support.jaeger {
            Ok(Some(PropagatorKind::Jaeger))
        } else {
            Err(PropagatorError::MissingFeature(PropagatorKind::Jaeger))
        }
    } else if same_text(v, "xray") {
        if support.xray {
            Ok(Some(PropagatorKind::Xray))
        } else {
            Err(PropagatorError::MissingFeature(PropagatorKind::Xray))
        }
    } else if same_text(v, "none") {
        Ok(None)
    } else {
        Err(PropagatorError::Unsupported(v.to_owned()))
    }
}

/// The propagators that a list of names selects, in the order of the
/// list. Each name is read without the space around it and in lower case.
/// The first name that selects nothing valid makes the whole list fail.
pub open spec fn propagators_of(list: Seq<char>, support: PropagatorSupport) -> Result<
    Seq<PropagatorKind>,
    PropagatorFault,
>
    decreases list.len(),
{
    let end = until(list, CharClass::Only(','));
    match propagator_of(lowercase(trim(list.take(end as int))), support) {
        Err(fault) => Err(fault),
        Ok(first) => {
            let head = match first {
                Some(kind) => seq![kind],
                None => Seq::empty(),
            };
            if end >= list.len() {
                Ok(head)
            } else {
                match propagators_of(list.skip(end as int + 1), support) {
                    Err(fault) => Err(fault),
                    Ok(rest) => Ok(head + rest),
                }
            }
        },
    }
}

/// What is selected when a list of names went before.
pub open spec fn after(
    before: Seq<PropagatorKind>,
    r: Result<Seq<PropagatorKind>, PropagatorFault>,
) -> Result<Seq<PropagatorKind>, PropagatorFault> {
    match r {
        Ok(rest) => Ok(before + rest),
        Err(fault) => Err(fault),
    }
}

/// The selection, as a mathematical value.
pub open spec fn selection_view(r: Result<Vec<PropagatorKind>, PropagatorError>) -> Result<
    Seq<PropagatorKind>,
    PropagatorFault,
> {
    match r {
        Ok(kinds) => Ok(kinds@),
        Err(e) => Err(e@),
    }
}

/// The list that is used where none is configured.
pub open spec fn default_propagators() -> Seq<char> {
    "tracecontext,baggage"@
}

/// Selects the propagators to install from the configured list of names,
/// or from the default list where none is configured. An empty selection
/// means that the propagator in place is left alone.
pub fn init_propagator(configured: Option<&str>, support: PropagatorSupport) -> (r: Result<
    Vec<PropagatorKind>,
    PropagatorError,
>)
    ensures
        selection_view(r) == propagators_of(
            match configured {
                Some(list) => list@,
                None => default_propagators(),
            },
            support,
        ),
{
    let list = match configured {
        Some(list) => list,
        None => "tracecontext,baggage",
    };
    let ghost wanted = match configured {
        Some(list) => list@,
        None => default_propagators(),
    };
    let cs = chars_of(list);
    let n = cs.len();
    let mut kinds: Vec<PropagatorKind> = Vec::new();
    let mut lo: usize = 0;
    assert(cs@.subrange(0, n as int) == cs@);
    loop
        invariant
            lo <= n == cs.len(),
            cs@ == list@,
            list@ == wanted,
            wanted == match configured {
                Some(list) => list@,
                None => default_propagators(),
            },
            propagators_of(list@, support) == after(
                kinds@,
                propagators_of(cs@.subrange(lo as int, n as int), support),
            ),
        decreases n - lo,
    {
        let ghost piece = cs@.subrange(lo as int, n as int);
        let ghost before = kinds@;
        let end = find_class(&cs, lo, n, CharClass::Only(','));
        assert(piece.take(end - lo) == cs@.subrange(lo as int, end as int));
        let (a, b) = trim_range(&cs, lo, end, CharClass::Whitespace);
        let name = to_lowercase(list.substring_char(a, b));
        match propagator_from_string(name.as_str(), support) {
            Err(e) => {
                return Err(e);
            },
            Ok(first) => {
                let ghost head = match first {
                    Some(kind) => seq![kind],
                    None => Seq::empty(),
                };
                if let Some(kind) = first {
                    kinds.push(kind);
                }
                assert(kinds@ =~= before + head);
                if end >= n {
                    return Ok(kinds);
                }
                assert(piece.skip(end - lo + 1) == cs@.subrange(end + 1, n as int));
                proof {
                    let rest = propagators_of(cs@.subrange(end + 1, n as int), support);
                    if let Ok(r) = rest {
                        assert(before + (head + r) =~= (before + head) + r);
                    }
                }
                lo = end + 1;
            },
        }
    }
}

} // verus!
