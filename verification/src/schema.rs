//! The declarative description of a contract's callable surface, and
//! the prompts derived from it for operator input.

use vstd::prelude::*;
use vstd::string::StringExecFns;
use crate::text::{dec_of, u64_to_string};

verus! {

/// One declared parameter of a contract method. The example and the
/// maximum are display hints only; neither is enforced client-side.
pub struct Param {
    pub name: String,
    pub example: Option<String>,
    pub max: Option<u64>,
}

/// The kind of a contract method: read-only view, state-changing call,
/// or anything else the schema declared (kept verbatim, rejected at
/// dispatch).
pub enum MethodKind {
    View,
    Call,
    Unknown(String),
}

/// One callable method as the schema declares it.
pub struct Method {
    pub name: String,
    pub label: String,
    pub params: Vec<Param>,
    pub kind: MethodKind,
}

/// The contract's callable surface: its address and the ordered method
/// list, immutable for the session.
pub struct Interface {
    pub contract: String,
    pub methods: Vec<Method>,
}

/// Classifies a schema-declared kind string: exactly `"view"` and
/// `"call"` are recognized; anything else is kept as unknown.
pub fn method_kind_of(s: &String) -> (r: MethodKind)
    ensures
        s@ == "view"@ ==> r is View,
        s@ == "call"@ ==> r is Call,
        s@ != "view"@ && s@ != "call"@ ==> (r matches MethodKind::Unknown(raw) && raw@ == s@),
{
    proof {
        reveal_strlit("view");
        reveal_strlit("call");
        assert("view"@[0] == 'v');
        assert("call"@[0] == 'c');
        assert("view"@ != "call"@);
    }
    let view: String = "view".to_owned();
    let call: String = "call".to_owned();
    if *s == view {
        MethodKind::View
    } else if *s == call {
        MethodKind::Call
    } else {
        MethodKind::Unknown(s.clone())
    }
}

/// The prompt shown for one parameter: its name, the example hint if
/// declared, the advisory maximum if declared, and a trailing colon.
pub open spec fn prompt_of(p: Param) -> Seq<char> {
    p.name@ + (match p.example {
        Some(e) => " (e.g. "@ + e@ + ")"@,
        None => Seq::<char>::empty(),
    }) + (match p.max {
        Some(m) => " (max: "@ + dec_of(m as nat) + ")"@,
        None => Seq::<char>::empty(),
    }) + ": "@
}

/// Builds the prompt for one parameter, matching `prompt_of`.
pub fn param_prompt(p: &Param) -> (r: String)
    ensures
        r@ == prompt_of(*p),
{
    let mut s = p.name.clone();
    match &p.example {
        Some(e) => {
            s.append(" (e.g. ");
            s.append(e.as_str());
            s.append(")");
        },
        None => {},
    }
    match p.max {
        Some(m) => {
            s.append(" (max: ");
            let d = u64_to_string(m);
            s.append(d.as_str());
            s.append(")");
        },
        None => {},
    }
    s.append(": ");
    proof {
        assert(s@ =~= prompt_of(*p));
    }
    s
}

/// The prompt for each declared parameter, in declared order; the
/// console layer shows prompt `i` and collects the operator's value
/// for parameter `i`.
pub fn parse_params(params: &Vec<Param>) -> (r: Vec<String>)
    ensures
        r@.len() == params@.len(),
        forall|i: int| 0 <= i < params@.len() ==> #[trigger] r@[i]@ == prompt_of(params@[i]),
{
    let mut out: Vec<String> = Vec::new();
    let mut i: usize = 0;
    while i < params.len()
        invariant
            0 <= i <= params@.len(),
            out@.len() == i,
            forall|j: int| 0 <= j < i ==> #[trigger] out@[j]@ == prompt_of(params@[j]),
        decreases params@.len() - i,
    {
        out.push(param_prompt(&params[i]));
        i = i + 1;
    }
    out
}

/// Resolves a one-based menu choice to a method: `1` through the
/// method count select, everything else (including `0`, the exit
/// choice) selects nothing.
pub fn select_method<'a>(methods: &'a Vec<Method>, choice: usize) -> (r: Option<&'a Method>)
    ensures
        r is Some <==> 1 <= choice <= methods@.len(),
        r matches Some(m) ==> *m == methods@[choice - 1],
{
    if 1 <= choice && choice <= methods.len() {
        Some(&methods[choice - 1])
    } else {
        None
    }
}

} // verus!
