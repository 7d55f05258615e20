use vstd::prelude::*;
use vstd::string::*;

verus! {

/// One parameter of an annotated function, as the generator sees it.
pub enum FnArg {
    /// A `self` receiver.
    Receiver,
    /// A parameter bound to a simple name, with the text of its type.
    Named { name: String, ty: String },
    /// A parameter whose pattern is not a simple name (a destructuring one).
    Pattern { ty: String },
}

/// The signature of an annotated native function.
pub struct FnSignature {
    pub name: String,
    pub inputs: Vec<FnArg>,
    /// The text of the return type; `None` where the function returns nothing.
    pub output: Option<String>,
}

/// A parameter that the trampoline unpacks: the index of the host argument it
/// reads and the native type it is converted to.
pub struct ArgumentDescriptor {
    pub position: usize,
    pub native_type: String,
}

/// What the generator emits for one annotated function.
pub struct Expansion {
    /// Whether the once-only module entry point and startup hook come with it.
    pub bootstrap: bool,
    /// The name under which the function is exported to the host.
    pub export_name: String,
    /// The name of the generated trampoline.
    pub trampoline_name: String,
    /// The name of the startup hook that registers the trampoline.
    pub init_name: String,
    /// The parameters that the trampoline unpacks, in declaration order.
    pub args: Vec<ArgumentDescriptor>,
    /// The text of the type that the trampoline converts the result from.
    pub return_type: String,
}

/// The type that a parameter contributes to the trampoline's argument list,
/// if it contributes one.
pub open spec fn marshalled_type(a: FnArg) -> Option<Seq<char>> {
    match a {
        FnArg::Named { ty, .. } => Some(ty@),
        _ => None,
    }
}

/// The types of the parameters that are unpacked, in declaration order:
/// receivers and non-name patterns are dropped.
pub open spec fn marshalled_types(s: Seq<FnArg>) -> Seq<Seq<char>>
    decreases s.len(),
{
    if s.len() == 0 {
        Seq::empty()
    } else {
        let front = marshalled_types(s.drop_last());
        match marshalled_type(s.last()) {
            Some(t) => front.push(t),
            None => front,
        }
    }
}

/// The trampoline's name: the function's name after `js_`.
pub open spec fn trampoline_name_of(name: Seq<char>) -> Seq<char> {
    seq!['j', 's', '_'] + name
}

/// The registering hook's name: the function's name after `_napi_`.
pub open spec fn init_name_of(name: Seq<char>) -> Seq<char> {
    seq!['_', 'n', 'a', 'p', 'i', '_'] + name
}

/// The return type's text, with `()` for a function that returns nothing.
pub open spec fn return_type_of(output: Option<String>) -> Seq<char> {
    match output {
        Some(t) => t@,
        None => seq!['(', ')'],
    }
}

impl Expansion {
    /// The number of host arguments that the trampoline reads.
    pub open spec fn arg_count(&self) -> nat {
        self.args@.len()
    }

    /// This expansion is the one that `sig` gets, with or without the
    /// once-only block.
    pub open spec fn expands(&self, sig: &FnSignature, bootstrap: bool) -> bool {
        &&& self.bootstrap == bootstrap
        &&& self.export_name@ == sig.name@
        &&& self.trampoline_name@ == trampoline_name_of(sig.name@)
        &&& self.init_name@ == init_name_of(sig.name@)
        &&& self.return_type@ == return_type_of(sig.output)
        &&& self.args@.len() == marshalled_types(sig.inputs@).len()
        &&& forall|i: int|
            0 <= i < self.args@.len() ==> (#[trigger] self.args@[i]).position == i
                && self.args@[i].native_type@ == marshalled_types(sig.inputs@)[i]
    }
}

/// The arguments that the trampoline unpacks.
fn marshalled_args(inputs: &Vec<FnArg>) -> (r: Vec<ArgumentDescriptor>)
    ensures
        r@.len() == marshalled_types(inputs@).len(),
        forall|i: int|
            0 <= i < r@.len() ==> (#[trigger] r@[i]).position == i && r@[i].native_type@
                == marshalled_types(inputs@)[i],
{
    let mut out: Vec<ArgumentDescriptor> = Vec::new();
    let mut k: usize = 0;
    while k < inputs.len()
        invariant
            k <= inputs@.len(),
            out@.len() == marshalled_types(inputs@.subrange(0, k as int)).len(),
            forall|i: int|
                0 <= i < out@.len() ==> (#[trigger] out@[i]).position == i && out@[i].native_type@
                    == marshalled_types(inputs@.subrange(0, k as int))[i],
        decreases inputs@.len() - k,
    {
        proof {
            let s = inputs@.subrange(0, k + 1);
            assert(s.drop_last() =~= inputs@.subrange(0, k as int));
            assert(s.last() == inputs@[k as int]);
        }
        match &inputs[k] {
            FnArg::Named { ty, .. } => {
                let position = out.len();
                out.push(ArgumentDescriptor { position, native_type: ty.clone() });
            },
            _ => {},
        }
        k = k + 1;
    }
    assert(inputs@.subrange(0, k as int) =~= inputs@);
    out
}

/// The code generator's state within one compiled unit: whether the module
/// entry point and its startup hook have been emitted yet.
pub struct Generator {
    bootstrapped: bool,
}

impl Generator {
    pub closed spec fn view(&self) -> bool {
        self.bootstrapped
    }

    /// A generator that has emitted nothing yet.
    pub fn new() -> (r: Generator)
        ensures
            r@ == false,
    {
        Generator { bootstrapped: false }
    }

    /// Whether the once-only block has been emitted.
    pub fn is_bootstrapped(&self) -> (r: bool)
        ensures
            r == self@,
    {
        self.bootstrapped
    }

    /// Checks and sets the flag: true exactly when this call is the first.
    pub fn claim_bootstrap(&mut self) -> (r: bool)
        ensures
            r == !old(self)@,
            final(self)@ == true,
    {
        let first = !self.bootstrapped;
        self.bootstrapped = true;
        first
    }

    /// Expands one annotated function: the trampoline that unpacks its named
    /// parameters in order, the hook that registers it under its own name, and
    /// the module's once-only block if it has not been emitted before.
    pub fn expand(&mut self, sig: &FnSignature) -> (r: Expansion)
        ensures
            r.expands(sig, !old(self)@),
            final(self)@ == true,
    {
        let bootstrap = self.claim_bootstrap();
        let name = sig.name.as_str();
        proof {
            reveal_strlit("js_");
            reveal_strlit("_napi_");
            reveal_strlit("()");
        }
        let trampoline_name = String::from_str("js_").concat(name);
        let init_name = String::from_str("_napi_").concat(name);
        let return_type = match &sig.output {
            Some(t) => t.clone(),
            None => String::from_str("()"),
        };
        let args = marshalled_args(&sig.inputs);
        proof {
            assert(trampoline_name@ =~= trampoline_name_of(sig.name@));
            assert(init_name@ =~= init_name_of(sig.name@));
            assert(return_type@ =~= return_type_of(sig.output));
        }
        Expansion {
            bootstrap,
            export_name: sig.name.clone(),
            trampoline_name,
            init_name,
            args,
            return_type,
        }
    }
    /// Expands each function of one compiled unit in order; only the first
    /// expansion of a fresh generator carries the once-only block.
    pub fn generate_unit(&mut self, sigs: &Vec<FnSignature>) -> (r: Vec<Expansion>)
        ensures
            r@.len() == sigs@.len(),
            forall|i: int|
                0 <= i < r@.len() ==> (#[trigger] r@[i]).expands(
                    &sigs@[i],
                    i == 0 && !old(self)@,
                ),
            final(self)@ == (old(self)@ || sigs@.len() > 0),
    {
        let mut out: Vec<Expansion> = Vec::new();
        let mut k: usize = 0;
        while k < sigs.len()
            invariant
                k <= sigs@.len(),
                out@.len() == k,
                self@ == (old(self)@ || k > 0),
                forall|i: int|
                    0 <= i < k ==> (#[trigger] out@[i]).expands(&sigs@[i], i == 0 && !old(self)@),
            decreases sigs@.len() - k,
        {
            let e = self.expand(&sigs[k]);
            out.push(e);
            k = k + 1;
        }
        out
    }
}

/// How many of the expansions carry the once-only block.
pub open spec fn count_bootstraps(r: Seq<Expansion>) -> nat
    decreases r.len(),
{
    if r.len() == 0 {
        0
    } else {
        (if r[0].bootstrap {
            1nat
        } else {
            0nat
        }) + count_bootstraps(r.drop_first())
    }
}

proof fn lemma_no_bootstraps(r: Seq<Expansion>)
    requires
        forall|i: int| 0 <= i < r.len() ==> !(#[trigger] r[i]).bootstrap,
    ensures
        count_bootstraps(r) == 0,
    decreases r.len(),
{
    if r.len() > 0 {
        assert forall|i: int| 0 <= i < r.drop_first().len() implies !(
        #[trigger] r.drop_first()[i]).bootstrap by {
            assert(r.drop_first()[i] == r[i + 1]);
        }
        lemma_no_bootstraps(r.drop_first());
    }
}

/// However many functions a compiled unit annotates (at least one), a fresh
/// generator emits the module entry point and startup hook exactly once.
pub proof fn lemma_bootstrap_emitted_once(sigs: Seq<FnSignature>, r: Seq<Expansion>)
    requires
        sigs.len() >= 1,
        r.len() == sigs.len(),
        forall|i: int| 0 <= i < r.len() ==> (#[trigger] r[i]).expands(&sigs[i], i == 0),
    ensures
        count_bootstraps(r) == 1,
{
    assert(r[0].expands(&sigs[0], true));
    assert forall|i: int| 0 <= i < r.drop_first().len() implies !(
    #[trigger] r.drop_first()[i]).bootstrap by {
        assert(r.drop_first()[i] == r[i + 1]);
        assert(r[i + 1].expands(&sigs[i + 1], false));
    }
    lemma_no_bootstraps(r.drop_first());
}

} // verus!
