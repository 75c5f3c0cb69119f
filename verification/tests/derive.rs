use organix::derive::gen::{gen, gen_input};
use organix::derive::syntax::{Attribute, Data, DeriveInput, Meta, NestedMeta};
use organix::derive::{
    Aggregate, Attrs, Error, ErrorKind, Field, Input, Placement, RuntimeOption, Service, Struct,
    Symbol,
};

fn word(word: &str) -> NestedMeta {
    NestedMeta::Word(word.to_string())
}

/// `#[runtime(words...)]`
fn runtime(words: &[&str]) -> Attribute {
    Attribute {
        path: Some("runtime".to_string()),
        meta: Some(Meta::List(words.iter().map(|w| word(w)).collect())),
    }
}

/// `#[name(words...)]`
fn other(name: &str, words: &[&str]) -> Attribute {
    Attribute {
        path: Some(name.to_string()),
        meta: Some(Meta::List(words.iter().map(|w| word(w)).collect())),
    }
}

fn field(name: &str, attrs: Vec<Attribute>) -> organix::derive::syntax::Field {
    organix::derive::syntax::Field {
        ident: Some(name.to_string()),
        attrs,
    }
}

fn attrs(shared: bool, skip: bool, io: bool, time: bool) -> Attrs {
    let given = |given: bool| if given { Some(true) } else { None };
    Attrs {
        shared: given(shared),
        skip: given(skip),
        io_driver: given(io),
        time_driver: given(time),
        core_threads: None,
        max_threads: None,
        thread_stack_size: None,
    }
}

fn fault(
    kind: ErrorKind,
    field: Option<usize>,
    attribute: Option<usize>,
    element: Option<usize>,
) -> Error {
    Error {
        kind,
        field,
        attribute,
        element,
    }
}

#[test]
fn symbols_are_the_words_of_the_attribute() {
    assert_eq!(Symbol::runtime().as_str(), "runtime");
    assert_eq!(Symbol::shared().as_str(), "shared");
    assert_eq!(Symbol::skip().as_str(), "skip");
    assert_eq!(Symbol::io_driver().as_str(), "io");
    assert_eq!(Symbol::time_driver().as_str(), "time");
    assert!(Symbol::shared().is("shared"));
    assert!(!Symbol::shared().is("Shared"));
    assert!(!Symbol::shared().is("share"));
    assert!(!Symbol::io_driver().is("time"));
    assert_eq!(Symbol::skip(), Symbol::skip());
    assert_ne!(Symbol::skip(), Symbol::time_driver());
}

#[test]
fn attrs_default_asks_for_nothing() {
    let none = Attrs::default();
    assert_eq!(none, attrs(false, false, false, false));
    assert!(!none.skip());
    assert!(!none.io_driver());
    assert!(!none.time_driver());
    assert!(none.shared(true));
    assert!(!none.shared(false));
}

#[test]
fn attrs_getters_read_what_was_given() {
    let all = attrs(true, true, true, true);
    assert!(all.skip());
    assert!(all.io_driver());
    assert!(all.time_driver());
    assert!(all.shared(false));
    let mut not_shared = Attrs::default();
    not_shared.shared = Some(false);
    not_shared.skip = Some(false);
    assert!(!not_shared.shared(true));
    assert!(!not_shared.skip());
}

#[test]
fn attrs_get_reads_the_runtime_attributes() {
    assert_eq!(Attrs::get(&vec![]), Ok(attrs(false, false, false, false)));
    assert_eq!(
        Attrs::get(&vec![runtime(&[])]),
        Ok(attrs(false, false, false, false))
    );
    assert_eq!(
        Attrs::get(&vec![runtime(&["shared"])]),
        Ok(attrs(true, false, false, false))
    );
    assert_eq!(
        Attrs::get(&vec![runtime(&["skip"])]),
        Ok(attrs(false, true, false, false))
    );
    assert_eq!(
        Attrs::get(&vec![runtime(&["io"])]),
        Ok(attrs(false, false, true, false))
    );
    assert_eq!(
        Attrs::get(&vec![runtime(&["time"])]),
        Ok(attrs(false, false, false, true))
    );
    assert_eq!(
        Attrs::get(&vec![runtime(&["time", "io"]), runtime(&["shared"])]),
        Ok(attrs(true, false, true, true))
    );
}

#[test]
fn attrs_get_passes_over_other_attributes() {
    let derive = other("derive", &["Debug", "shared"]);
    let doc = Attribute {
        path: Some("doc".to_string()),
        meta: Some(Meta::NameValue),
    };
    let path = Attribute {
        path: None,
        meta: None,
    };
    assert_eq!(
        Attrs::get(&vec![derive, doc, runtime(&["io"]), path]),
        Ok(attrs(false, false, true, false))
    );
}

#[test]
fn attrs_get_refuses_an_option_given_twice() {
    assert_eq!(
        Attrs::get(&vec![runtime(&["shared", "shared"])]),
        Err(fault(
            ErrorKind::Duplicated(RuntimeOption::Shared),
            None,
            Some(0),
            Some(1)
        ))
    );
    assert_eq!(
        Attrs::get(&vec![
            other("derive", &["Debug"]),
            runtime(&["io", "skip"]),
            runtime(&["time", "skip"])
        ]),
        Err(fault(
            ErrorKind::Duplicated(RuntimeOption::Skip),
            None,
            Some(2),
            Some(1)
        ))
    );
    assert_eq!(
        Attrs::get(&vec![runtime(&["io"]), runtime(&["io"])]),
        Err(fault(
            ErrorKind::Duplicated(RuntimeOption::IoDriver),
            None,
            Some(1),
            Some(0)
        ))
    );
    assert_eq!(
        Attrs::get(&vec![runtime(&["time", "io", "time"])]),
        Err(fault(
            ErrorKind::Duplicated(RuntimeOption::TimeDriver),
            None,
            Some(0),
            Some(2)
        ))
    );
}

#[test]
fn attrs_get_refuses_what_is_no_option() {
    assert_eq!(
        Attrs::get(&vec![runtime(&["io", "exclusive"])]),
        Err(fault(ErrorKind::Unexpected, None, Some(0), Some(1)))
    );
    let nested = Attribute {
        path: Some("runtime".to_string()),
        meta: Some(Meta::List(vec![NestedMeta::Other, word("io")])),
    };
    assert_eq!(
        Attrs::get(&vec![nested]),
        Err(fault(ErrorKind::Unexpected, None, Some(0), Some(0)))
    );
    // the first fault is the one reported
    assert_eq!(
        Attrs::get(&vec![runtime(&["io", "io", "exclusive"])]),
        Err(fault(
            ErrorKind::Duplicated(RuntimeOption::IoDriver),
            None,
            Some(0),
            Some(1)
        ))
    );
    assert_eq!(
        Attrs::get(&vec![runtime(&["Shared"])]),
        Err(fault(ErrorKind::Unexpected, None, Some(0), Some(0)))
    );
}

#[test]
fn attrs_get_wants_a_list() {
    for meta in [Meta::Path, Meta::NameValue] {
        let attribute = Attribute {
            path: Some("runtime".to_string()),
            meta: Some(meta),
        };
        assert_eq!(
            Attrs::get(&vec![runtime(&["io"]), attribute]),
            Err(fault(ErrorKind::ExpectedList, None, Some(1), None))
        );
    }
    let broken = Attribute {
        path: Some("runtime".to_string()),
        meta: None,
    };
    assert_eq!(
        Attrs::get(&vec![broken]),
        Err(fault(ErrorKind::Syntax, None, Some(0), None))
    );
}

#[test]
fn error_kinds_have_their_words() {
    assert_eq!(ErrorKind::Syntax.message(), None);
    assert_eq!(
        ErrorKind::ExpectedList.message(),
        Some("expected #[runtime(...)]")
    );
    assert_eq!(ErrorKind::Unexpected.message(), Some("unexpected attribute"));
    assert_eq!(
        ErrorKind::Duplicated(RuntimeOption::Shared).message(),
        Some("duplicated #[runtime(shared)]")
    );
    assert_eq!(
        ErrorKind::Duplicated(RuntimeOption::Skip).message(),
        Some("duplicated #[runtime(skip)]")
    );
    assert_eq!(
        ErrorKind::Duplicated(RuntimeOption::IoDriver).message(),
        Some("duplicated #[runtime(io)]")
    );
    assert_eq!(
        ErrorKind::Duplicated(RuntimeOption::TimeDriver).message(),
        Some("duplicated #[runtime(time)]")
    );
    assert_eq!(
        ErrorKind::UnnamedField.message(),
        Some("unnamed fields are not supported")
    );
    assert_eq!(
        ErrorKind::NotAStruct.message(),
        Some("only structure are supported")
    );
}

#[test]
fn field_from_syn_reads_name_and_attributes() {
    let read = Field::from_syn(&field("ping", vec![runtime(&["time"])])).unwrap();
    assert_eq!(read.member, "ping");
    assert_eq!(read.attrs, attrs(false, false, false, true));
    assert!(read.time_driver());
    assert!(!read.io_driver());
    assert!(!read.skip());
    assert!(read.shared(true));
    assert!(!read.shared(false));
}

#[test]
fn field_from_syn_refuses_a_field_without_a_name() {
    let unnamed = organix::derive::syntax::Field {
        ident: None,
        attrs: vec![],
    };
    assert_eq!(
        Field::from_syn(&unnamed),
        Err(fault(ErrorKind::UnnamedField, None, None, None))
    );
    // a fault in the attributes comes first
    let unnamed = organix::derive::syntax::Field {
        ident: None,
        attrs: vec![runtime(&["exclusive"])],
    };
    assert_eq!(
        Field::from_syn(&unnamed),
        Err(fault(ErrorKind::Unexpected, None, Some(0), Some(0)))
    );
}

#[test]
fn fields_from_syn_place_the_fault_in_its_field() {
    let fields = vec![
        field("a", vec![]),
        field("b", vec![runtime(&["io", "io"])]),
        organix::derive::syntax::Field {
            ident: None,
            attrs: vec![],
        },
    ];
    assert_eq!(
        Field::multiple_from_syn(&fields),
        Err(fault(
            ErrorKind::Duplicated(RuntimeOption::IoDriver),
            Some(1),
            Some(0),
            Some(1)
        ))
    );
    assert_eq!(
        Field::multiple_from_syn(&fields[2..].to_vec()),
        Err(fault(ErrorKind::UnnamedField, Some(0), None, None))
    );
    let read = Field::multiple_from_syn(&fields[..1].to_vec()).unwrap();
    assert_eq!(read.len(), 1);
    assert_eq!(read[0].member, "a");
    assert_eq!(Field::multiple_from_syn(&vec![]), Ok(vec![]));
}

fn ping_pong_services() -> DeriveInput {
    DeriveInput {
        ident: "PingPongServices".to_string(),
        attrs: vec![other("derive", &["Organix"]), runtime(&["shared"])],
        data: Data::Struct(vec![
            field("ping", vec![runtime(&["time"])]),
            field("pong", vec![]),
        ]),
    }
}

fn std_echo() -> DeriveInput {
    DeriveInput {
        ident: "StdEcho".to_string(),
        attrs: vec![],
        data: Data::Struct(vec![
            field("stdin", vec![runtime(&["io"])]),
            field("settings", vec![runtime(&["skip"])]),
            field("stdout", vec![runtime(&["io", "time"])]),
            field("log", vec![runtime(&["shared"])]),
        ]),
    }
}

fn declared(node: &DeriveInput) -> Struct {
    match Input::from_syn(node) {
        Ok(Input::Struct(declared)) => declared,
        Err(error) => panic!("unexpected fault: {:?}", error),
    }
}

#[test]
fn input_from_syn_reads_a_struct() {
    let declared = declared(&ping_pong_services());
    assert_eq!(declared.ident, "PingPongServices");
    assert!(declared.default_is_shared());
    assert_eq!(declared.attrs, attrs(true, false, false, false));
    assert_eq!(declared.fields.len(), 2);
    assert_eq!(declared.fields[0].member, "ping");
    assert_eq!(declared.fields[0].attrs, attrs(false, false, false, true));
    assert_eq!(declared.fields[1].member, "pong");
    assert_eq!(declared.fields[1].attrs, attrs(false, false, false, false));

    assert!(!self::declared(&std_echo()).default_is_shared());
}

#[test]
fn input_from_syn_reads_a_struct_without_fields() {
    let node = DeriveInput {
        ident: "NoServices".to_string(),
        attrs: vec![],
        data: Data::Struct(vec![]),
    };
    let declared = declared(&node);
    assert_eq!(declared.ident, "NoServices");
    assert!(declared.fields.is_empty());
    assert_eq!(declared.possible_values(), Vec::<String>::new());
    assert_eq!(
        gen(Input::Struct(declared)),
        Aggregate {
            ident: "NoServices".to_string(),
            services: vec![],
        }
    );
}

#[test]
fn input_from_syn_refuses_what_is_no_struct() {
    for data in [Data::Enum, Data::Union] {
        let node = DeriveInput {
            ident: "App".to_string(),
            // a fault here is not even looked at
            attrs: vec![runtime(&["exclusive"])],
            data,
        };
        assert_eq!(
            Input::from_syn(&node),
            Err(fault(ErrorKind::NotAStruct, None, None, None))
        );
    }
}

#[test]
fn struct_from_syn_reads_the_fields_first() {
    let node = DeriveInput {
        ident: "App".to_string(),
        attrs: vec![runtime(&["shared", "shared"])],
        data: Data::Struct(vec![field("a", vec![runtime(&["nope"])])]),
    };
    assert_eq!(
        Input::from_syn(&node),
        Err(fault(ErrorKind::Unexpected, Some(0), Some(0), Some(0)))
    );
    let node = DeriveInput {
        ident: "App".to_string(),
        attrs: vec![runtime(&["shared", "shared"])],
        data: Data::Struct(vec![field("a", vec![])]),
    };
    assert_eq!(
        Struct::from_syn(&node, &vec![field("a", vec![])]),
        Err(fault(
            ErrorKind::Duplicated(RuntimeOption::Shared),
            None,
            Some(0),
            Some(1)
        ))
    );
}

#[test]
fn struct_lists_the_fields_that_are_services() {
    let declared = declared(&std_echo());
    let services: Vec<&str> = declared
        .fields()
        .iter()
        .map(|field| field.member.as_str())
        .collect();
    assert_eq!(services, vec!["stdin", "stdout", "log"]);
    assert_eq!(declared.possible_values(), vec!["stdin", "stdout", "log"]);
}

fn individual(name: &str, io_driver: bool, time_driver: bool) -> Service {
    Service {
        name: name.to_string(),
        placement: Placement::Individual {
            thread_name: name.to_string(),
            io_driver,
            time_driver,
        },
    }
}

fn shared(name: &str) -> Service {
    Service {
        name: name.to_string(),
        placement: Placement::Shared,
    }
}

#[test]
fn gen_places_each_service_on_its_pool() {
    assert_eq!(
        gen(Input::Struct(declared(&std_echo()))),
        Aggregate {
            ident: "StdEcho".to_string(),
            services: vec![
                individual("stdin", true, false),
                individual("stdout", true, true),
                shared("log"),
            ],
        }
    );
    // where the aggregate is shared, the services are, whatever drivers
    // they ask for
    assert_eq!(
        gen_input(declared(&ping_pong_services())),
        Aggregate {
            ident: "PingPongServices".to_string(),
            services: vec![shared("ping"), shared("pong")],
        }
    );
    assert_eq!(
        declared(&ping_pong_services()).placements(),
        vec![shared("ping"), shared("pong")]
    );
}

#[test]
fn field_placement_follows_the_default_unless_it_says_so() {
    let plain = Field::from_syn(&field("a", vec![])).unwrap();
    assert_eq!(plain.placement(true), Placement::Shared);
    assert_eq!(plain.placement(false), individual("a", false, false).placement);
    let shared = Field::from_syn(&field("b", vec![runtime(&["shared", "io"])])).unwrap();
    assert_eq!(shared.placement(false), Placement::Shared);
    assert_eq!(shared.placement(true), Placement::Shared);
    let mut exclusive = Field::from_syn(&field("c", vec![runtime(&["time"])])).unwrap();
    exclusive.attrs.shared = Some(false);
    assert_eq!(
        exclusive.placement(true),
        individual("c", false, true).placement
    );
}
