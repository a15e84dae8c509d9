use cortex_ar::attrs::{
    entry, entry_export_name, exception, extract_cfgs, irq, ArgToken, AttrInfo, Exception,
    HandlerShape, Kind, MacroError, SignatureInfo,
};

fn attr(name: &str) -> AttrInfo {
    AttrInfo { outer: true, ident: Some(name.to_string()) }
}

fn never_sig() -> SignatureInfo {
    SignatureInfo {
        is_const: false,
        is_unsafe: false,
        inherited_visibility: true,
        has_abi: false,
        n_inputs: 0,
        n_generic_params: 0,
        has_where_clause: false,
        is_variadic: false,
        returns_never: true,
    }
}

fn name(s: &str) -> Vec<ArgToken> {
    vec![ArgToken::Ident(s.to_string())]
}

#[test]
fn entry_accepts_plain_signature() {
    assert_eq!(entry(never_sig(), 0, &vec![attr("doc"), attr("cfg")]), Ok(()));
    assert_eq!(entry_export_name(), "kmain");
}

#[test]
fn entry_rejects_bad_signatures() {
    let sig = SignatureInfo { returns_never: false, ..never_sig() };
    assert_eq!(entry(sig, 0, &vec![]), Err(MacroError::InvalidEntrySignature));
    let sig = SignatureInfo { n_inputs: 1, ..never_sig() };
    assert_eq!(entry(sig, 0, &vec![]), Err(MacroError::InvalidEntrySignature));
    let sig = SignatureInfo { inherited_visibility: false, ..never_sig() };
    assert_eq!(entry(sig, 0, &vec![]), Err(MacroError::InvalidEntrySignature));
    assert_eq!(entry(never_sig(), 2, &vec![]), Err(MacroError::EntryTakesNoArguments));
}

#[test]
fn entry_rejects_foreign_attribute() {
    let attrs = vec![attr("doc"), attr("inline"), attr("no_mangle")];
    let e = entry(never_sig(), 0, &attrs).unwrap_err();
    assert_eq!(e, MacroError::AttributeNotAllowed { index: 1, caller: Kind::Entry });
    assert_eq!(e.message(), "this attribute is not allowed on a cortex-r-rt/cortex-a-rt entry point");
    let inner = vec![AttrInfo { outer: false, ident: Some("doc".to_string()) }];
    assert_eq!(
        entry(never_sig(), 0, &inner),
        Err(MacroError::AttributeNotAllowed { index: 0, caller: Kind::Entry })
    );
}

#[test]
fn exception_handlers_by_name() {
    let h = exception(&name("DataAbort"), never_sig(), &vec![]).unwrap();
    assert_eq!(h.exception, Exception::DataAbort);
    assert_eq!(h.shape(), HandlerShape::NeverReturns);
    assert_eq!(h.export_name(), "_data_abort_handler");
    assert_eq!(h.trampoline_name(), "__cortex_ar_rt_data_abort_handler");
    let sig = SignatureInfo { returns_never: false, is_unsafe: true, ..never_sig() };
    let h = exception(&name("Undefined"), sig, &vec![]).unwrap();
    assert_eq!(h.shape(), HandlerShape::ReturnsAddress);
    let sig = SignatureInfo { returns_never: false, ..never_sig() };
    let h = exception(&name("SupervisorCall"), sig, &vec![]).unwrap();
    assert_eq!(h.shape(), HandlerShape::TakesCallArgument);
    assert_eq!(h.export_name(), "_svc_handler");
}

#[test]
fn exception_rejections() {
    let sig = SignatureInfo { returns_never: false, ..never_sig() };
    let e = exception(&name("PrefetchAbort"), sig, &vec![]).unwrap_err();
    assert_eq!(e, MacroError::HandlerMustBeUnsafe(Exception::PrefetchAbort));
    assert_eq!(e.message(), "PrefetchAbort handlers that don't return ! must be unsafe");
    assert_eq!(exception(&vec![], never_sig(), &vec![]), Err(MacroError::MissingExceptionName));
    assert_eq!(exception(&vec![ArgToken::Other], never_sig(), &vec![]), Err(MacroError::MissingExceptionName));
    let two = vec![ArgToken::Ident("Irq".to_string()), ArgToken::Other];
    assert_eq!(exception(&two, never_sig(), &vec![]), Err(MacroError::TooManyArguments));
    assert_eq!(exception(&name("Reset"), never_sig(), &vec![]), Err(MacroError::UnknownException));
    assert_eq!(
        exception(&name("Irq"), never_sig(), &vec![attr("inline")]),
        Err(MacroError::AttributeNotAllowed { index: 0, caller: Kind::Exception })
    );
}

#[test]
fn irq_handler() {
    let sig = SignatureInfo { returns_never: false, ..never_sig() };
    let h = irq(&vec![], sig, &vec![attr("cold")]).unwrap();
    assert_eq!(h.exception, Exception::Irq);
    assert_eq!(h.shape(), HandlerShape::NoArguments);
    assert_eq!(h.export_name(), "_irq_handler");
    assert_eq!(
        irq(&vec![], sig, &vec![attr("used")]).unwrap_err().message(),
        "this attribute is not allowed on an interrupt handler controlled by cortex-r-rt/cortex-a-rt"
    );
}

#[test]
fn cfgs_split_in_order() {
    let attrs = vec![
        (attr("cfg"), 0),
        (attr("doc"), 1),
        (AttrInfo { outer: true, ident: None }, 2),
        (AttrInfo { outer: false, ident: Some("cfg".to_string()) }, 3),
        (attr("cfg"), 4),
    ];
    let (cfgs, rest) = extract_cfgs(attrs);
    assert_eq!(cfgs.iter().map(|a| a.1).collect::<Vec<_>>(), vec![0, 4]);
    assert_eq!(rest.iter().map(|a| a.1).collect::<Vec<_>>(), vec![1, 2, 3]);
    assert_eq!(rest[0].0, attr("doc"));
}

#[test]
fn exception_names_round_trip() {
    for e in [Exception::Undefined, Exception::SupervisorCall, Exception::PrefetchAbort, Exception::DataAbort, Exception::Irq] {
        let h = exception(&name(e.name()), SignatureInfo { is_unsafe: true, ..never_sig() }, &vec![]).unwrap();
        assert_eq!(h.exception, e);
    }
    assert_eq!(Exception::SupervisorCall.name(), "SupervisorCall");
}
