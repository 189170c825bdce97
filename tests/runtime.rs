use ferrex::error::RuntimeError;
use ferrex::handle::{Handle, HandleKind, Param};
use ferrex::runtime::{enumerate_assemblies, resume, Arg, AssemblyHookType, ManagedRuntime, NativeCall, NativeReply, Step, Value};
use ferrex::symbols::{export_name, get_function_option, Backend, Export, SymbolTable};

const ALL: [Export; 24] = [
    Export::RootDomain,
    Export::ThreadCurrent,
    Export::ThreadSetMain,
    Export::ThreadAttach,
    Export::AddInternalCall,
    Export::StringNew,
    Export::RuntimeInvoke,
    Export::MethodGetName,
    Export::DebugDomainCreate,
    Export::DomainSetConfig,
    Export::DomainAssemblyOpen,
    Export::AssemblyGetImage,
    Export::ClassFromName,
    Export::InstallPreloadHook,
    Export::InstallLoadHook,
    Export::InstallSearchHook,
    Export::AssemblyForeach,
    Export::AssemblyGetName,
    Export::ClassGetName,
    Export::ClassGetPropertyFromName,
    Export::PropertyGetName,
    Export::PropertyGetGetMethod,
    Export::PropertyGetSetMethod,
    Export::MethodGetUnmanagedThunk,
];

/// A runtime whose every offered export resolves to `1000 + position`.
fn full_runtime(backend: Backend) -> ManagedRuntime {
    let mut t = SymbolTable::new(backend);
    for (i, e) in ALL.iter().enumerate() {
        t.record(*e, Some(1000 + i));
    }
    ManagedRuntime::new(t)
}

fn handle(kind: HandleKind, addr: usize) -> Handle {
    Handle { kind, addr }
}

/// Runs an operation to its end, answering each native call with `reply`;
/// gives the result and the exports that were called, in order.
fn drive(first: Step, mut reply: impl FnMut(&NativeCall) -> NativeReply) -> (Result<Value, RuntimeError>, Vec<Export>) {
    let mut calls = Vec::new();
    let mut step = first;
    loop {
        match step {
            Step::Done(r) => return (r, calls),
            Step::Call(call, pending) => {
                calls.push(call.export);
                let answer = reply(&call);
                step = resume(pending, answer);
            }
        }
    }
}

#[test]
fn get_class_with_null_assembly_makes_no_native_call() {
    let rt = full_runtime(Backend::Mono { is_old: false });
    let (r, calls) = drive(rt.get_class(handle(HandleKind::Assembly, 0), "UnityEngine", "Application"), |_| NativeReply::Word(1));
    assert!(matches!(r, Err(RuntimeError::NullHandle(Param::Assembly))));
    assert!(calls.is_empty());
}

#[test]
fn get_property_with_null_class_makes_no_native_call() {
    let rt = full_runtime(Backend::Mono { is_old: false });
    let (r, calls) = drive(rt.get_property(handle(HandleKind::Class, 0), "name"), |_| NativeReply::Word(1));
    assert!(matches!(r, Err(RuntimeError::NullHandle(Param::Class))));
    assert!(calls.is_empty());
}

#[test]
fn invoke_method_with_null_method_makes_no_native_call() {
    let rt = full_runtime(Backend::Il2Cpp);
    let (r, calls) = drive(rt.invoke_method(handle(HandleKind::Method, 0), None, None), |_| NativeReply::Word(1));
    assert!(matches!(r, Err(RuntimeError::NullHandle(Param::Method))));
    assert!(calls.is_empty());
}

#[test]
fn get_class_asks_image_then_class() {
    let rt = full_runtime(Backend::Mono { is_old: false });
    let mut seen_args = Vec::new();
    let (r, calls) = drive(rt.get_class(handle(HandleKind::Assembly, 0x10), "UnityEngine", "Application"), |c| {
        seen_args.push(c.args.len());
        match c.export {
            Export::AssemblyGetImage => {
                assert!(matches!(c.args[0], Arg::Word(0x10)));
                assert_eq!(c.func, 1000 + 11);
                NativeReply::Word(0x20)
            }
            Export::ClassFromName => {
                assert!(matches!(c.args[0], Arg::Word(0x20)));
                match (&c.args[1], &c.args[2]) {
                    (Arg::Text(ns), Arg::Text(n)) => {
                        assert_eq!(ns, "UnityEngine");
                        assert_eq!(n, "Application");
                    }
                    _ => panic!("class lookup takes two texts"),
                }
                NativeReply::Word(0x30)
            }
            _ => panic!("unexpected export"),
        }
    });
    assert_eq!(calls, vec![Export::AssemblyGetImage, Export::ClassFromName]);
    assert_eq!(seen_args, vec![1, 3]);
    match r {
        Ok(Value::Handle(h)) => assert_eq!(h, handle(HandleKind::Class, 0x30)),
        _ => panic!("expected a class handle"),
    }
}

#[test]
fn get_class_null_image_is_unexpected_null() {
    let rt = full_runtime(Backend::Mono { is_old: false });
    let (r, calls) = drive(rt.get_class(handle(HandleKind::Assembly, 0x10), "A", "B"), |_| NativeReply::Word(0));
    assert!(matches!(r, Err(RuntimeError::UnexpectedNull(Export::AssemblyGetImage))));
    assert_eq!(calls, vec![Export::AssemblyGetImage]);
}

#[test]
fn get_class_rejects_nul_in_names() {
    let rt = full_runtime(Backend::Mono { is_old: false });
    let (r, calls) = drive(rt.get_class(handle(HandleKind::Assembly, 0x10), "Unity\0Engine", "B"), |_| NativeReply::Word(1));
    assert!(matches!(r, Err(RuntimeError::InteriorNul(Param::Namespace))));
    assert!(calls.is_empty());
}

#[test]
fn missing_symbol_resolves_to_none() {
    let mut t = SymbolTable::new(Backend::Il2Cpp);
    for e in ALL.iter() {
        t.record(*e, Some(0x500));
    }
    assert_eq!(t.resolve(Export::ClassFromName), None);
    assert_eq!(t.resolve(Export::AssemblyForeach), None);
    assert_eq!(t.resolve(Export::RuntimeInvoke), Some(0x500));
}

#[test]
fn missing_symbol_gives_capability_unavailable() {
    let mut t = SymbolTable::new(Backend::Mono { is_old: true });
    t.record(Export::RootDomain, Some(0x100));
    let rt = ManagedRuntime::new(t);
    let (r, calls) = drive(rt.get_property(handle(HandleKind::Class, 0x10), "x"), |_| NativeReply::Word(1));
    assert!(matches!(r, Err(RuntimeError::CapabilityUnavailable(Export::ClassGetPropertyFromName))));
    assert!(calls.is_empty());
    let (r, calls) = drive(rt.get_current_thread(), |_| NativeReply::Word(1));
    assert!(matches!(r, Err(RuntimeError::CapabilityUnavailable(Export::ThreadCurrent))));
    assert!(calls.is_empty());
    let (r, _) = drive(rt.open_assembly("Assembly-CSharp"), |_| NativeReply::Word(1));
    assert!(matches!(r, Err(RuntimeError::CapabilityUnavailable(Export::DomainAssemblyOpen))));
}

#[test]
fn null_lookup_result_counts_as_missing() {
    let mut t = SymbolTable::new(Backend::Mono { is_old: false });
    t.record(Export::RuntimeInvoke, Some(0));
    assert_eq!(t.resolve(Export::RuntimeInvoke), None);
    assert_eq!(get_function_option::<()>(Ok(0)), None);
    assert_eq!(get_function_option::<()>(Ok(42)), Some(42));
    assert_eq!(get_function_option::<&str>(Err("no such symbol")), None);
}

#[test]
fn export_names_per_backend() {
    assert_eq!(export_name(Backend::Mono { is_old: false }, Export::RuntimeInvoke), Some("mono_runtime_invoke"));
    assert_eq!(export_name(Backend::Il2Cpp, Export::RuntimeInvoke), Some("il2cpp_runtime_invoke"));
    assert_eq!(export_name(Backend::Il2Cpp, Export::RootDomain), Some("il2cpp_domain_get"));
    assert_eq!(export_name(Backend::Il2Cpp, Export::ClassFromName), None);
}

#[test]
fn enumeration_twice_gives_identical_lists() {
    let rt = full_runtime(Backend::Mono { is_old: false });
    let reported = vec![0x10usize, 0, 0x20, 0x30];
    let answer = |c: &NativeCall| {
        assert!(matches!(c.args[0], Arg::Collector));
        NativeReply::Collected(reported.clone())
    };
    let (first, _) = drive(rt.get_assemblies(), answer);
    let (second, _) = drive(rt.get_assemblies(), answer);
    let first = match first {
        Ok(Value::Handles(v)) => v,
        _ => panic!("expected a list"),
    };
    let second = match second {
        Ok(Value::Handles(v)) => v,
        _ => panic!("expected a list"),
    };
    assert_eq!(first.len(), 3);
    assert_eq!(first, second);
    assert_eq!(first[1], handle(HandleKind::Assembly, 0x20));
}

#[test]
fn enumeration_on_ahead_of_time_backend_is_empty() {
    let rt = full_runtime(Backend::Il2Cpp);
    let (r, calls) = drive(rt.get_assemblies(), |_| NativeReply::Collected(vec![1, 2]));
    match r {
        Ok(Value::Handles(v)) => assert!(v.is_empty()),
        _ => panic!("expected an empty list"),
    }
    assert!(calls.is_empty());
}

#[test]
fn enumerate_assemblies_skips_null() {
    let v = enumerate_assemblies(&vec![0, 7, 0, 9]);
    assert_eq!(v, vec![handle(HandleKind::Assembly, 7), handle(HandleKind::Assembly, 9)]);
    assert!(enumerate_assemblies(&vec![]).is_empty());
}

#[test]
fn invoke_null_result_means_no_value() {
    let rt = full_runtime(Backend::Mono { is_old: false });
    let (r, _) = drive(rt.invoke_method(handle(HandleKind::Method, 0x40), None, None), |c| {
        assert_eq!(c.args.len(), 4);
        assert!(matches!(c.args[1], Arg::Word(0)));
        assert!(matches!(c.args[2], Arg::Word(0)));
        NativeReply::Word(0)
    });
    assert!(matches!(r, Ok(Value::Object(None))));
    let (r, _) = drive(rt.invoke_method(handle(HandleKind::Method, 0x40), Some(handle(HandleKind::Object, 0x50)), Some(vec![1, 2])), |c| {
        assert!(matches!(c.args[1], Arg::Word(0x50)));
        match &c.args[2] {
            Arg::Words(w) => assert_eq!(w, &vec![1, 2]),
            _ => panic!("arguments are a word array"),
        }
        NativeReply::Word(0x60)
    });
    match r {
        Ok(Value::Object(Some(h))) => assert_eq!(h, handle(HandleKind::Object, 0x60)),
        _ => panic!("expected an object"),
    }
}

#[test]
fn new_string_on_mono_asks_domain_first() {
    let rt = full_runtime(Backend::Mono { is_old: false });
    let (r, calls) = drive(rt.new_string("hello"), |c| match c.export {
        Export::RootDomain => NativeReply::Word(0x99),
        Export::StringNew => {
            assert!(matches!(c.args[0], Arg::Word(0x99)));
            match &c.args[1] {
                Arg::Text(t) => assert_eq!(t, "hello"),
                _ => panic!("text expected"),
            }
            NativeReply::Word(0x77)
        }
        _ => panic!("unexpected export"),
    });
    assert_eq!(calls, vec![Export::RootDomain, Export::StringNew]);
    match r {
        Ok(Value::Handle(h)) => assert_eq!(h, handle(HandleKind::String, 0x77)),
        _ => panic!("expected a string handle"),
    }
}

#[test]
fn new_string_on_il2cpp_is_one_call() {
    let rt = full_runtime(Backend::Il2Cpp);
    let (r, calls) = drive(rt.new_string("x"), |_| NativeReply::Word(5));
    assert_eq!(calls, vec![Export::StringNew]);
    assert!(matches!(r, Ok(Value::Handle(_))));
}

#[test]
fn new_string_rejects_empty_and_nul() {
    let rt = full_runtime(Backend::Il2Cpp);
    let (r, _) = drive(rt.new_string(""), |_| NativeReply::Word(5));
    assert!(matches!(r, Err(RuntimeError::EmptyString)));
    let (r, _) = drive(rt.new_string("a\0b"), |_| NativeReply::Word(5));
    assert!(matches!(r, Err(RuntimeError::InteriorNul(Param::Text))));
    let (r, _) = drive(rt.string_from_raw(0), |_| NativeReply::Word(5));
    assert!(matches!(r, Err(RuntimeError::NullHandle(Param::Text))));
}

#[test]
fn register_native_callback_validates() {
    let rt = full_runtime(Backend::Mono { is_old: false });
    let (r, _) = drive(rt.add_internal_call("", 5), |_| NativeReply::Unit);
    assert!(matches!(r, Err(RuntimeError::NullHandle(Param::Name))));
    let (r, _) = drive(rt.add_internal_call("Ns.Class::Method", 0), |_| NativeReply::Unit);
    assert!(matches!(r, Err(RuntimeError::NullHandle(Param::Function))));
    let (r, calls) = drive(rt.add_internal_call("Ns.Class::Method", 5), |_| NativeReply::Unit);
    assert!(matches!(r, Ok(Value::Unit)));
    assert_eq!(calls, vec![Export::AddInternalCall]);
}

#[test]
fn domain_and_thread_null_results() {
    let rt = full_runtime(Backend::Mono { is_old: false });
    let (r, _) = drive(rt.get_domain(), |_| NativeReply::Word(0));
    assert!(matches!(r, Err(RuntimeError::UnexpectedNull(Export::RootDomain))));
    let (r, _) = drive(rt.attach_to_thread(handle(HandleKind::Domain, 3)), |_| NativeReply::Word(0));
    assert!(matches!(r, Err(RuntimeError::UnexpectedNull(Export::ThreadAttach))));
    let (r, _) = drive(rt.attach_to_thread(handle(HandleKind::Domain, 0)), |_| NativeReply::Word(4));
    assert!(matches!(r, Err(RuntimeError::NullHandle(Param::Domain))));
    let (r, _) = drive(rt.get_current_thread(), |_| NativeReply::Word(8));
    match r {
        Ok(Value::Handle(h)) => assert_eq!(h, handle(HandleKind::Thread, 8)),
        _ => panic!("expected a thread"),
    }
}

#[test]
fn set_main_thread_per_backend() {
    let (_, calls) = drive(full_runtime(Backend::Mono { is_old: false }).set_main_thread(handle(HandleKind::Thread, 3)), |_| NativeReply::Unit);
    assert_eq!(calls, vec![Export::ThreadSetMain]);
    let (r, calls) = drive(full_runtime(Backend::Il2Cpp).set_main_thread(handle(HandleKind::Thread, 3)), |_| NativeReply::Word(0));
    assert_eq!(calls, vec![Export::ThreadAttach]);
    assert!(matches!(r, Ok(Value::Unit)));
}

#[test]
fn names_are_read_as_text() {
    let rt = full_runtime(Backend::Mono { is_old: false });
    let (r, _) = drive(rt.get_method_name(handle(HandleKind::Method, 1)), |_| NativeReply::Text(Some("Awake".to_string())));
    match r {
        Ok(Value::Text(t)) => assert_eq!(t, "Awake"),
        _ => panic!("expected text"),
    }
    let (r, _) = drive(rt.get_class_name(handle(HandleKind::Class, 1)), |_| NativeReply::Text(None));
    assert!(matches!(r, Err(RuntimeError::UnexpectedNull(Export::ClassGetName))));
    let (r, _) = drive(rt.get_property_name(handle(HandleKind::Property, 1)), |_| NativeReply::NotUtf8);
    assert!(matches!(r, Err(RuntimeError::InvalidText(Export::PropertyGetName))));
    let (r, _) = drive(rt.get_assembly_name(handle(HandleKind::Assembly, 1)), |_| NativeReply::Word(3));
    assert!(matches!(r, Err(RuntimeError::UnexpectedReply(Export::AssemblyGetName))));
}

#[test]
fn property_value_resolves_getter_then_invokes() {
    let rt = full_runtime(Backend::Mono { is_old: false });
    let (r, calls) = drive(rt.get_property_value(handle(HandleKind::Property, 0x11), Some(handle(HandleKind::Object, 0x22))), |c| match c.export {
        Export::PropertyGetGetMethod => NativeReply::Word(0x33),
        Export::RuntimeInvoke => {
            assert!(matches!(c.args[0], Arg::Word(0x33)));
            assert!(matches!(c.args[1], Arg::Word(0x22)));
            assert!(matches!(c.args[2], Arg::Word(0)));
            NativeReply::Word(0x44)
        }
        _ => panic!("unexpected export"),
    });
    assert_eq!(calls, vec![Export::PropertyGetGetMethod, Export::RuntimeInvoke]);
    assert!(matches!(r, Ok(Value::Object(Some(_)))));
}

#[test]
fn property_set_passes_value() {
    let rt = full_runtime(Backend::Mono { is_old: false });
    let (r, calls) = drive(rt.set_property_value(handle(HandleKind::Property, 0x11), None, 0x55), |c| match c.export {
        Export::PropertyGetSetMethod => NativeReply::Word(0x33),
        Export::RuntimeInvoke => {
            match &c.args[2] {
                Arg::Words(w) => assert_eq!(w, &vec![0x55]),
                _ => panic!("one argument expected"),
            }
            NativeReply::Word(0)
        }
        _ => panic!("unexpected export"),
    });
    assert_eq!(calls.len(), 2);
    assert!(matches!(r, Ok(Value::Object(None))));
    let (r, _) = drive(rt.set_property_value(handle(HandleKind::Property, 0x11), None, 0x55), |_| NativeReply::Word(0));
    assert!(matches!(r, Err(RuntimeError::UnexpectedNull(Export::PropertyGetSetMethod))));
}

#[test]
fn unmanaged_thunk_per_backend() {
    let (r, calls) = drive(full_runtime(Backend::Il2Cpp).get_unmanaged_thunk(handle(HandleKind::Method, 0x70)), |_| NativeReply::Word(1));
    assert!(matches!(r, Ok(Value::Address(0x70))));
    assert!(calls.is_empty());
    let (r, _) = drive(full_runtime(Backend::Mono { is_old: true }).get_unmanaged_thunk(handle(HandleKind::Method, 0x70)), |_| NativeReply::Word(0x71));
    assert!(matches!(r, Ok(Value::Address(0x71))));
}

#[test]
fn assembly_hooks_and_domain_config() {
    let rt = full_runtime(Backend::Mono { is_old: false });
    let (_, calls) = drive(rt.install_assembly_hook(AssemblyHookType::Search, 9), |_| NativeReply::Unit);
    assert_eq!(calls, vec![Export::InstallSearchHook]);
    assert_eq!(AssemblyHookType::Preload.name(), "preload");
    let (r, _) = drive(full_runtime(Backend::Il2Cpp).install_assembly_hook(AssemblyHookType::Load, 9), |_| NativeReply::Unit);
    assert!(matches!(r, Err(RuntimeError::CapabilityUnavailable(Export::InstallLoadHook))));
    let (r, calls) = drive(rt.set_domain_config(handle(HandleKind::Domain, 1), "dir", "app.config"), |_| NativeReply::Unit);
    assert!(matches!(r, Ok(Value::Unit)));
    assert_eq!(calls, vec![Export::DomainSetConfig]);
    let (r, _) = drive(rt.create_debug_domain(handle(HandleKind::Domain, 0)), |_| NativeReply::Unit);
    assert!(matches!(r, Err(RuntimeError::NullHandle(Param::Domain))));
}

#[test]
fn open_assembly_and_image() {
    let rt = full_runtime(Backend::Mono { is_old: false });
    let (r, calls) = drive(rt.open_assembly("Assembly-CSharp"), |c| match c.export {
        Export::RootDomain => NativeReply::Word(1),
        _ => NativeReply::Word(2),
    });
    assert_eq!(calls, vec![Export::RootDomain, Export::DomainAssemblyOpen]);
    match r {
        Ok(Value::Handle(h)) => assert_eq!(h, handle(HandleKind::Assembly, 2)),
        _ => panic!("expected an assembly"),
    }
    let (r, _) = drive(rt.assembly_get_image(handle(HandleKind::Assembly, 2)), |_| NativeReply::Word(3));
    match r {
        Ok(Value::Handle(h)) => assert_eq!(h.kind, HandleKind::Image),
        _ => panic!("expected an image"),
    }
}

#[test]
fn invoke_entry_address() {
    let rt = full_runtime(Backend::Il2Cpp);
    assert_eq!(rt.invoke_entry(), Ok(1006));
    let rt = ManagedRuntime::new(SymbolTable::new(Backend::Il2Cpp));
    assert_eq!(rt.invoke_entry(), Err(RuntimeError::CapabilityUnavailable(Export::RuntimeInvoke)));
}

#[test]
fn backend_labels() {
    assert_eq!(Backend::Il2Cpp.label(), "Il2cpp");
    assert_eq!(Backend::Mono { is_old: true }.label(), "Mono");
    assert_eq!(Backend::Mono { is_old: false }.label(), "MonoBleedingEdge");
}

#[test]
fn null_address_makes_no_handle() {
    assert_eq!(Handle::new(HandleKind::Method, 0), None);
    assert_eq!(Handle::new(HandleKind::Method, 5), Some(handle(HandleKind::Method, 5)));
    assert!(handle(HandleKind::Object, 0).is_null());
}
