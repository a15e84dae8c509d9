//! Rules for the functions that the runtime's attribute macros accept as the
//! program entry point, exception handlers and interrupt handlers.

use vstd::prelude::*;

verus! {

/// Which attribute a function carries: `#[entry]`, `#[exception(...)]` or
/// `#[irq]`.
#[derive(Debug, Clone, Copy, PartialEq, Eq, Structural)]
pub enum Kind {
    /// Corresponds to `#[entry]`
    Entry,
    /// Corresponds to `#[exception(...)]`
    Exception,
    /// Corresponds to `#[irq]`
    Interrupt,
}

/// The set of exceptions a handler can be written for.
#[derive(Debug, Clone, Copy, PartialEq, Eq, Structural)]
pub enum Exception {
    Undefined,
    SupervisorCall,
    PrefetchAbort,
    DataAbort,
    Irq,
}

/// An attribute applied to a function, as the rules see it.
#[derive(Debug, Clone, PartialEq, Eq)]
pub struct AttrInfo {
    /// `#[...]` rather than `#![...]`
    pub outer: bool,
    /// The attribute's path where it is a single identifier
    pub ident: Option<String>,
}

/// One token of the argument list given to `#[exception(...)]`.
#[derive(Debug, Clone, PartialEq, Eq)]
pub enum ArgToken {
    Ident(String),
    Other,
}

/// The parts of a function signature that the rules look at.
#[derive(Debug, Clone, Copy, PartialEq, Eq, Structural)]
pub struct SignatureInfo {
    pub is_const: bool,
    pub is_unsafe: bool,
    /// No `pub` or other visibility
    pub inherited_visibility: bool,
    pub has_abi: bool,
    pub n_inputs: usize,
    pub n_generic_params: usize,
    pub has_where_clause: bool,
    pub is_variadic: bool,
    /// The return type is `!`
    pub returns_never: bool,
}

/// Why an attribute macro refuses a function.
#[derive(Debug, Clone, Copy, PartialEq, Eq, Structural)]
pub enum MacroError {
    /// `#[entry]` on a function that is not `[unsafe] fn() -> !`
    InvalidEntrySignature,
    /// `#[entry(...)]` with arguments
    EntryTakesNoArguments,
    /// The attribute at `index` may not be applied to such a function
    AttributeNotAllowed { index: usize, caller: Kind },
    /// `#[exception]` whose first argument is not an identifier
    MissingExceptionName,
    /// `#[exception(...)]` with more than one argument
    TooManyArguments,
    /// A handler for this exception that can return must be `unsafe`
    HandlerMustBeUnsafe(Exception),
    /// `#[exception(...)]` naming no exception
    UnknownException,
}

/// The names that an exception handler and its trampoline are exported
/// under, and the handler's shape.
#[derive(Debug, Clone, Copy, PartialEq, Eq, Structural)]
pub struct HandlerSpec {
    pub exception: Exception,
    pub returns_never: bool,
}

/// How the exception trampolines call a handler.
#[derive(Debug, Clone, Copy, PartialEq, Eq, Structural)]
pub enum HandlerShape {
    /// `fn(addr: usize) -> !`
    NeverReturns,
    /// `unsafe fn(addr: usize) -> usize`: the result is where execution
    /// resumes
    ReturnsAddress,
    /// `fn(arg: u32)`: the argument is the supervisor call's immediate
    TakesCallArgument,
    /// `fn()`
    NoArguments,
}

/// Whether `attr` is an outer attribute whose path is the identifier `name`.
pub open spec fn spec_eq(attr: AttrInfo, name: Seq<char>) -> bool {
    attr.outer && attr.ident is Some && attr.ident->0@ == name
}

/// Returns `true` if `attr`'s path matches `name`.
pub fn eq(attr: &AttrInfo, name: &str) -> (r: bool)
    ensures
        r == spec_eq(*attr, name@),
{
    if !attr.outer {
        return false;
    }
    match &attr.ident {
        Some(id) => {
            let wanted = name.to_owned();
            *id == wanted
        },
        None => false,
    }
}

/// The attributes that an entry point or handler may carry.
pub open spec fn allowed(attr: AttrInfo) -> bool {
    spec_eq(attr, "doc"@) || spec_eq(attr, "link_section"@) || spec_eq(attr, "cfg"@)
        || spec_eq(attr, "allow"@) || spec_eq(attr, "warn"@) || spec_eq(attr, "deny"@)
        || spec_eq(attr, "forbid"@) || spec_eq(attr, "cold"@) || spec_eq(attr, "naked"@)
        || spec_eq(attr, "expect"@)
}

/// Whether `i` is the first position in `attrs` of an attribute that is not
/// allowed.
pub open spec fn is_first_disallowed(attrs: Seq<AttrInfo>, i: int) -> bool {
    0 <= i < attrs.len() && !allowed(attrs[i]) && forall|j: int| 0 <= j < i ==> allowed(#[trigger] attrs[j])
}

/// The verdict on a function's attributes: the first one that is not allowed
/// is reported.
pub open spec fn whitelist_verdict(attrs: Seq<AttrInfo>, caller: Kind) -> Result<(), MacroError> {
    if exists|i: int| is_first_disallowed(attrs, i) {
        let i = choose|i: int| is_first_disallowed(attrs, i);
        Err(MacroError::AttributeNotAllowed { index: i as usize, caller })
    } else {
        Ok(())
    }
}

/// Whether the attribute is one that may be applied.
fn is_allowed(attr: &AttrInfo) -> (r: bool)
    ensures
        r == allowed(*attr),
{
    eq(attr, "doc") || eq(attr, "link_section") || eq(attr, "cfg") || eq(attr, "allow")
        || eq(attr, "warn") || eq(attr, "deny") || eq(attr, "forbid") || eq(attr, "cold")
        || eq(attr, "naked") || eq(attr, "expect")
}

/// Checks whether any disallowed attributes have been applied to an entry
/// point, exception handler or interrupt handler.
pub fn check_attr_whitelist(attrs: &Vec<AttrInfo>, caller: Kind) -> (r: Result<(), MacroError>)
    ensures
        r == whitelist_verdict(attrs@, caller),
        r is Ok <==> forall|j: int| 0 <= j < attrs@.len() ==> allowed(#[trigger] attrs@[j]),
{
    let mut i: usize = 0;
    while i < attrs.len()
        invariant
            i <= attrs@.len(),
            forall|j: int| 0 <= j < i ==> allowed(#[trigger] attrs@[j]),
        decreases attrs@.len() - i,
    {
        if !is_allowed(&attrs[i]) {
            proof {
                assert(is_first_disallowed(attrs@, i as int));
                let k = choose|k: int| is_first_disallowed(attrs@, k);
                if k < i {
                    assert(allowed(attrs@[k]));
                }
                if k > i {
                    assert(allowed(attrs@[i as int]));
                }
            }
            return Err(MacroError::AttributeNotAllowed { index: i, caller });
        }
        i = i + 1;
    }
    assert(!exists|k: int| is_first_disallowed(attrs@, k));
    Ok(())
}

/// The elements of `s` whose flag in `keep` equals `want`, in order.
pub open spec fn select<T>(s: Seq<T>, keep: Seq<bool>, want: bool) -> Seq<T>
    decreases s.len(),
{
    if s.len() == 0 || keep.len() != s.len() {
        Seq::empty()
    } else {
        let rest = select(s.drop_last(), keep.drop_last(), want);
        if keep.last() == want {
            rest.push(s.last())
        } else {
            rest
        }
    }
}

/// For each attribute, whether it is a `cfg`.
pub open spec fn cfg_flags<T>(attrs: Seq<(AttrInfo, T)>) -> Seq<bool> {
    Seq::new(attrs.len(), |i: int| spec_eq(attrs[i].0, "cfg"@))
}

/// Given a list of attributes, each with what it was read from, splits them
/// into `cfg` and non-`cfg`, each part in the order given.
///
/// Returns `(cfgs, non_cfgs)`.
pub fn extract_cfgs<T>(attrs: Vec<(AttrInfo, T)>) -> (r: (Vec<(AttrInfo, T)>, Vec<(AttrInfo, T)>))
    ensures
        r.0@ == select(attrs@, cfg_flags(attrs@), true),
        r.1@ == select(attrs@, cfg_flags(attrs@), false),
{
    let ghost all = attrs@;
    let mut rest = attrs;
    let n: usize = rest.len();
    let mut cfgs: Vec<(AttrInfo, T)> = Vec::new();
    let mut not_cfgs: Vec<(AttrInfo, T)> = Vec::new();
    let mut i: usize = 0;
    while rest.len() > 0
        invariant
            i + rest@.len() == all.len(),
            all.len() == n,
            rest@ == all.subrange(i as int, all.len() as int),
            cfgs@ == select(all.subrange(0, i as int), cfg_flags(all).subrange(0, i as int), true),
            not_cfgs@ == select(all.subrange(0, i as int), cfg_flags(all).subrange(0, i as int), false),
        decreases rest@.len(),
    {
        let attr = rest.remove(0);
        let is_cfg = eq(&attr.0, "cfg");
        proof {
            assert(attr == all[i as int]);
            let s = all.subrange(0, i + 1);
            let k = cfg_flags(all).subrange(0, i + 1);
            assert(s.drop_last() =~= all.subrange(0, i as int));
            assert(k.drop_last() =~= cfg_flags(all).subrange(0, i as int));
            assert(k.last() == is_cfg);
            assert(s.last() == attr);
        }
        if is_cfg {
            cfgs.push(attr);
        } else {
            not_cfgs.push(attr);
        }
        i = i + 1;
        assert(rest@ =~= all.subrange(i as int, all.len() as int));
    }
    assert(all.subrange(0, all.len() as int) =~= all);
    assert(cfg_flags(all).subrange(0, all.len() as int) =~= cfg_flags(all));
    (cfgs, not_cfgs)
}

/// Whether a signature is that of an entry point: `[unsafe] fn() -> !`.
pub open spec fn valid_entry_signature(sig: SignatureInfo) -> bool {
    !sig.is_const && sig.inherited_visibility && !sig.has_abi && sig.n_inputs == 0
        && sig.n_generic_params == 0 && !sig.has_where_clause && !sig.is_variadic
        && sig.returns_never
}

/// The verdict of `#[entry]`, checked in this order: the signature, then the
/// attribute's own arguments, then the function's attributes.
pub open spec fn entry_verdict(sig: SignatureInfo, n_args: nat, attrs: Seq<AttrInfo>) -> Result<(), MacroError> {
    if !valid_entry_signature(sig) {
        Err(MacroError::InvalidEntrySignature)
    } else if n_args != 0 {
        Err(MacroError::EntryTakesNoArguments)
    } else {
        whitelist_verdict(attrs, Kind::Entry)
    }
}

/// Checks a function marked `#[entry]`, given the number of tokens in the
/// attribute's own arguments.
pub fn entry(sig: SignatureInfo, n_args: usize, attrs: &Vec<AttrInfo>) -> (r: Result<(), MacroError>)
    ensures
        r == entry_verdict(sig, n_args as nat, attrs@),
{
    let valid_signature = !sig.is_const && sig.inherited_visibility && !sig.has_abi
        && sig.n_inputs == 0 && sig.n_generic_params == 0 && !sig.has_where_clause
        && !sig.is_variadic && sig.returns_never;
    if !valid_signature {
        return Err(MacroError::InvalidEntrySignature);
    }
    if n_args != 0 {
        return Err(MacroError::EntryTakesNoArguments);
    }
    check_attr_whitelist(attrs, Kind::Entry)
}

/// The exception that a name given to `#[exception(...)]` denotes.
pub open spec fn exception_named(name: Seq<char>) -> Option<Exception> {
    if name == "Undefined"@ {
        Some(Exception::Undefined)
    } else if name == "SupervisorCall"@ {
        Some(Exception::SupervisorCall)
    } else if name == "PrefetchAbort"@ {
        Some(Exception::PrefetchAbort)
    } else if name == "DataAbort"@ {
        Some(Exception::DataAbort)
    } else if name == "Irq"@ {
        Some(Exception::Irq)
    } else {
        None
    }
}

/// Looks up the exception that `name` denotes.
pub fn exception_from_name(name: &String) -> (r: Option<Exception>)
    ensures
        r == exception_named(name@),
{
    if *name == "Undefined".to_owned() {
        Some(Exception::Undefined)
    } else if *name == "SupervisorCall".to_owned() {
        Some(Exception::SupervisorCall)
    } else if *name == "PrefetchAbort".to_owned() {
        Some(Exception::PrefetchAbort)
    } else if *name == "DataAbort".to_owned() {
        Some(Exception::DataAbort)
    } else if *name == "Irq".to_owned() {
        Some(Exception::Irq)
    } else {
        None
    }
}

/// Whether a handler for this exception may return a resumption address.
pub open spec fn can_resume(e: Exception) -> bool {
    e == Exception::Undefined || e == Exception::PrefetchAbort || e == Exception::DataAbort
}

/// The exception that the attribute's arguments select, or why they are
/// refused.
pub open spec fn exception_verdict(kind: Kind, args: Seq<ArgToken>, sig: SignatureInfo) -> Result<Exception, MacroError> {
    if kind == Kind::Interrupt {
        Ok(Exception::Irq)
    } else if args.len() == 0 || !(args[0] is Ident) {
        Err(MacroError::MissingExceptionName)
    } else if args.len() > 1 {
        Err(MacroError::TooManyArguments)
    } else {
        match exception_named(args[0]->Ident_0@) {
            None => Err(MacroError::UnknownException),
            Some(e) => if can_resume(e) && !sig.returns_never && !sig.is_unsafe {
                Err(MacroError::HandlerMustBeUnsafe(e))
            } else {
                Ok(e)
            },
        }
    }
}

/// The verdict of `#[exception(...)]` or `#[irq]`: attributes are checked
/// first, then the attribute's arguments.
pub open spec fn handler_verdict(kind: Kind, args: Seq<ArgToken>, sig: SignatureInfo, attrs: Seq<AttrInfo>) -> Result<HandlerSpec, MacroError> {
    match whitelist_verdict(attrs, kind) {
        Err(e) => Err(e),
        Ok(_) => match exception_verdict(kind, args, sig) {
            Err(e) => Err(e),
            Ok(e) => Ok(HandlerSpec { exception: e, returns_never: sig.returns_never }),
        },
    }
}

/// A common routine for handling exception or interrupt functions: checks
/// the function and the attribute's arguments, and selects the handler that
/// the function becomes.
pub fn handle_exception_interrupt(args: &Vec<ArgToken>, sig: SignatureInfo, attrs: &Vec<AttrInfo>, kind: Kind) -> (r: Result<HandlerSpec, MacroError>)
    requires
        kind != Kind::Entry,
    ensures
        r == handler_verdict(kind, args@, sig, attrs@),
{
    match check_attr_whitelist(attrs, kind) {
        Err(e) => {
            return Err(e);
        },
        Ok(_) => {},
    }
    let exception = match kind {
        Kind::Interrupt => Exception::Irq,
        _ => {
            if args.len() == 0 {
                return Err(MacroError::MissingExceptionName);
            }
            let name = match &args[0] {
                ArgToken::Ident(n) => n,
                ArgToken::Other => {
                    return Err(MacroError::MissingExceptionName);
                },
            };
            if args.len() > 1 {
                return Err(MacroError::TooManyArguments);
            }
            match exception_from_name(name) {
                None => {
                    return Err(MacroError::UnknownException);
                },
                Some(e) => {
                    let resumable = match e {
                        Exception::Undefined | Exception::PrefetchAbort | Exception::DataAbort => true,
                        _ => false,
                    };
                    if resumable && !sig.returns_never && !sig.is_unsafe {
                        return Err(MacroError::HandlerMustBeUnsafe(e));
                    }
                    e
                },
            }
        },
    };
    Ok(HandlerSpec { exception, returns_never: sig.returns_never })
}

/// Checks a function marked `#[exception(...)]`.
pub fn exception(args: &Vec<ArgToken>, sig: SignatureInfo, attrs: &Vec<AttrInfo>) -> (r: Result<HandlerSpec, MacroError>)
    ensures
        r == handler_verdict(Kind::Exception, args@, sig, attrs@),
{
    handle_exception_interrupt(args, sig, attrs, Kind::Exception)
}

/// Checks a function marked `#[irq]`.
pub fn irq(args: &Vec<ArgToken>, sig: SignatureInfo, attrs: &Vec<AttrInfo>) -> (r: Result<HandlerSpec, MacroError>)
    ensures
        r == handler_verdict(Kind::Interrupt, args@, sig, attrs@),
{
    handle_exception_interrupt(args, sig, attrs, Kind::Interrupt)
}

impl Exception {
    /// The name that `#[exception(...)]` takes for this exception.
    pub open spec fn spec_name(self) -> Seq<char> {
        match self {
            Exception::Undefined => "Undefined"@,
            Exception::SupervisorCall => "SupervisorCall"@,
            Exception::PrefetchAbort => "PrefetchAbort"@,
            Exception::DataAbort => "DataAbort"@,
            Exception::Irq => "Irq"@,
        }
    }

    pub fn name(&self) -> (r: &'static str)
        ensures
            r@ == self.spec_name(),
    {
        match self {
            Exception::Undefined => "Undefined",
            Exception::SupervisorCall => "SupervisorCall",
            Exception::PrefetchAbort => "PrefetchAbort",
            Exception::DataAbort => "DataAbort",
            Exception::Irq => "Irq",
        }
    }
}

/// Every exception's name denotes it.
pub proof fn lemma_exception_name_round_trip(e: Exception)
    ensures
        exception_named(e.spec_name()) == Some(e),
{
    reveal_strlit("Undefined");
    reveal_strlit("SupervisorCall");
    reveal_strlit("PrefetchAbort");
    reveal_strlit("DataAbort");
    reveal_strlit("Irq");
    let (u, s, p, d, i) = ("Undefined"@, "SupervisorCall"@, "PrefetchAbort"@, "DataAbort"@, "Irq"@);
    assert(u.len() == 9 && s.len() == 14 && p.len() == 13 && d.len() == 9 && i.len() == 3);
    assert(u[0] != d[0]);
    assert(u != s && u != p && u != d && u != i);
    assert(s != p && s != d && s != i);
    assert(p != d && p != i);
    assert(d != i);
}

impl HandlerSpec {
    /// The shape of the handler that the trampoline calls.
    pub open spec fn spec_shape(self) -> HandlerShape {
        match self.exception {
            Exception::SupervisorCall => HandlerShape::TakesCallArgument,
            Exception::Irq => HandlerShape::NoArguments,
            _ => if self.returns_never {
                HandlerShape::NeverReturns
            } else {
                HandlerShape::ReturnsAddress
            },
        }
    }

    pub fn shape(&self) -> (r: HandlerShape)
        ensures
            r == self.spec_shape(),
    {
        match self.exception {
            Exception::SupervisorCall => HandlerShape::TakesCallArgument,
            Exception::Irq => HandlerShape::NoArguments,
            _ => if self.returns_never {
                HandlerShape::NeverReturns
            } else {
                HandlerShape::ReturnsAddress
            },
        }
    }

    /// The symbol that the trampoline calls.
    pub open spec fn spec_export_name(self) -> Seq<char> {
        match self.exception {
            Exception::Undefined => "_undefined_handler"@,
            Exception::SupervisorCall => "_svc_handler"@,
            Exception::PrefetchAbort => "_prefetch_abort_handler"@,
            Exception::DataAbort => "_data_abort_handler"@,
            Exception::Irq => "_irq_handler"@,
        }
    }

    pub fn export_name(&self) -> (r: &'static str)
        ensures
            r@ == self.spec_export_name(),
    {
        match self.exception {
            Exception::Undefined => "_undefined_handler",
            Exception::SupervisorCall => "_svc_handler",
            Exception::PrefetchAbort => "_prefetch_abort_handler",
            Exception::DataAbort => "_data_abort_handler",
            Exception::Irq => "_irq_handler",
        }
    }

    /// The name of the exported function that forwards to the user's
    /// handler.
    pub open spec fn spec_trampoline_name(self) -> Seq<char> {
        match self.exception {
            Exception::Undefined => "__cortex_ar_rt_undefined_handler"@,
            Exception::SupervisorCall => "__cortex_ar_rt_svc_handler"@,
            Exception::PrefetchAbort => "__cortex_ar_rt_prefetch_abort_handler"@,
            Exception::DataAbort => "__cortex_ar_rt_data_abort_handler"@,
            Exception::Irq => "__cortex_ar_rt_irq_handler"@,
        }
    }

    pub fn trampoline_name(&self) -> (r: &'static str)
        ensures
            r@ == self.spec_trampoline_name(),
    {
        match self.exception {
            Exception::Undefined => "__cortex_ar_rt_undefined_handler",
            Exception::SupervisorCall => "__cortex_ar_rt_svc_handler",
            Exception::PrefetchAbort => "__cortex_ar_rt_prefetch_abort_handler",
            Exception::DataAbort => "__cortex_ar_rt_data_abort_handler",
            Exception::Irq => "__cortex_ar_rt_irq_handler",
        }
    }
}

/// The symbol that the entry point is exported under.
pub fn entry_export_name() -> (r: &'static str)
    ensures
        r@ == "kmain"@,
{
    "kmain"
}

/// The name of the exported function that forwards to the entry point.
pub fn entry_trampoline_name() -> (r: &'static str)
    ensures
        r@ == "__cortex_ar_rt_kmain"@,
{
    "__cortex_ar_rt_kmain"
}

impl MacroError {
    /// The compile error that reports this refusal.
    pub open spec fn spec_message(self) -> Seq<char> {
        match self {
            MacroError::InvalidEntrySignature => "`#[entry]` function must have signature `[unsafe] fn() -> !`"@,
            MacroError::EntryTakesNoArguments => "This attribute accepts no arguments"@,
            MacroError::AttributeNotAllowed { index: _, caller: Kind::Entry } =>
                "this attribute is not allowed on a cortex-r-rt/cortex-a-rt entry point"@,
            MacroError::AttributeNotAllowed { index: _, caller: Kind::Exception } =>
                "this attribute is not allowed on an exception handler controlled by cortex-r-rt/cortex-a-rt"@,
            MacroError::AttributeNotAllowed { index: _, caller: Kind::Interrupt } =>
                "this attribute is not allowed on an interrupt handler controlled by cortex-r-rt/cortex-a-rt"@,
            MacroError::MissingExceptionName => "This attribute requires the name of the exception as the first argument"@,
            MacroError::TooManyArguments => "This attribute accepts only one argument"@,
            MacroError::HandlerMustBeUnsafe(Exception::Undefined) => "Undefined handlers that don't return ! must be unsafe"@,
            MacroError::HandlerMustBeUnsafe(Exception::PrefetchAbort) => "PrefetchAbort handlers that don't return ! must be unsafe"@,
            MacroError::HandlerMustBeUnsafe(Exception::DataAbort) => "DataAbort handlers that don't return ! must be unsafe"@,
            MacroError::HandlerMustBeUnsafe(_) => "This handler must be unsafe"@,
            MacroError::UnknownException => "This is not a valid exception name"@,
        }
    }

    pub fn message(&self) -> (r: &'static str)
        ensures
            r@ == self.spec_message(),
    {
        match self {
            MacroError::InvalidEntrySignature => "`#[entry]` function must have signature `[unsafe] fn() -> !`",
            MacroError::EntryTakesNoArguments => "This attribute accepts no arguments",
            MacroError::AttributeNotAllowed { index: _, caller: Kind::Entry } =>
                "this attribute is not allowed on a cortex-r-rt/cortex-a-rt entry point",
            MacroError::AttributeNotAllowed { index: _, caller: Kind::Exception } =>
                "this attribute is not allowed on an exception handler controlled by cortex-r-rt/cortex-a-rt",
            MacroError::AttributeNotAllowed { index: _, caller: Kind::Interrupt } =>
                "this attribute is not allowed on an interrupt handler controlled by cortex-r-rt/cortex-a-rt",
            MacroError::MissingExceptionName => "This attribute requires the name of the exception as the first argument",
            MacroError::TooManyArguments => "This attribute accepts only one argument",
            MacroError::HandlerMustBeUnsafe(Exception::Undefined) => "Undefined handlers that don't return ! must be unsafe",
            MacroError::HandlerMustBeUnsafe(Exception::PrefetchAbort) => "PrefetchAbort handlers that don't return ! must be unsafe",
            MacroError::HandlerMustBeUnsafe(Exception::DataAbort) => "DataAbort handlers that don't return ! must be unsafe",
            MacroError::HandlerMustBeUnsafe(_) => "This handler must be unsafe",
            MacroError::UnknownException => "This is not a valid exception name",
        }
    }
}

} // verus!
