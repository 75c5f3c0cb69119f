//! The declaration of an aggregate, read: the struct, its fields, and what
//! their `runtime` attributes ask for.

use super::symbol::{lemma_symbols_differ, Symbol};
use super::syntax;
use super::syntax::{
    Attribute, Data, DeriveInput, Error, ErrorKind, Meta, NestedMeta, RuntimeOption,
};
use vstd::prelude::*;

verus! {

#[derive(Debug, PartialEq, Eq)]
pub enum Input {
    Struct(Struct),
}

/// A declared aggregate.
#[derive(Debug, PartialEq, Eq)]
pub struct Struct {
    pub ident: String,
    pub fields: Vec<Field>,
    pub attrs: Attrs,
}

/// What the `runtime` attributes of an item or of a field ask for.
#[derive(Clone, Copy, Debug, PartialEq, Eq)]
pub struct Attrs {
    pub shared: Option<bool>,
    pub skip: Option<bool>,
    pub io_driver: Option<bool>,
    pub time_driver: Option<bool>,
    pub core_threads: Option<usize>,
    pub max_threads: Option<usize>,
    pub thread_stack_size: Option<usize>,
}

/// A named field of a declared aggregate.
#[derive(Debug, PartialEq, Eq)]
pub struct Field {
    pub attrs: Attrs,
    /// The name of the field, which is the identifier of its service.
    pub member: String,
}

/// A `Field` with its name as a sequence of characters.
pub struct FieldView {
    pub attrs: Attrs,
    pub member: Seq<char>,
}

impl View for Field {
    type V = FieldView;

    open spec fn view(&self) -> FieldView {
        FieldView { attrs: self.attrs, member: self.member@ }
    }
}

/// A `Struct` with its names as sequences of characters.
pub struct StructView {
    pub ident: Seq<char>,
    pub fields: Seq<FieldView>,
    pub attrs: Attrs,
}

impl View for Struct {
    type V = StructView;

    open spec fn view(&self) -> StructView {
        StructView {
            ident: self.ident@,
            fields: Seq::new(self.fields@.len(), |i: int| self.fields@[i]@),
            attrs: self.attrs,
        }
    }
}

/// The option that `word` names, if it names one.
pub open spec fn option_named(word: Seq<char>) -> Option<RuntimeOption> {
    if word == "shared"@ {
        Some(RuntimeOption::Shared)
    } else if word == "skip"@ {
        Some(RuntimeOption::Skip)
    } else if word == "io"@ {
        Some(RuntimeOption::IoDriver)
    } else if word == "time"@ {
        Some(RuntimeOption::TimeDriver)
    } else {
        None
    }
}

/// Whether `attribute` is a `runtime` attribute.
pub open spec fn is_runtime(attribute: Attribute) -> bool {
    attribute.path is Some && attribute.path.unwrap()@ == "runtime"@
}

/// The fault of kind `kind` in the element `element` of the attribute
/// `attribute`.
pub open spec fn fault_in_element(kind: ErrorKind, attribute: int, element: int) -> Error {
    Error {
        kind,
        field: None,
        attribute: Some(attribute as usize),
        element: Some(element as usize),
    }
}

/// The fault of kind `kind` in the attribute `attribute`.
pub open spec fn fault_in_attribute(kind: ErrorKind, attribute: int) -> Error {
    Error { kind, field: None, attribute: Some(attribute as usize), element: None }
}

impl Attrs {
    /// Nothing asked for.
    pub open spec fn none() -> Attrs {
        Attrs {
            shared: None,
            skip: None,
            io_driver: None,
            time_driver: None,
            core_threads: None,
            max_threads: None,
            thread_stack_size: None,
        }
    }

    /// Whether `option` has been given.
    pub open spec fn has(self, option: RuntimeOption) -> bool {
        match option {
            RuntimeOption::Shared => self.shared is Some,
            RuntimeOption::Skip => self.skip is Some,
            RuntimeOption::IoDriver => self.io_driver is Some,
            RuntimeOption::TimeDriver => self.time_driver is Some,
        }
    }

    /// `self` with `option` given.
    pub open spec fn with(self, option: RuntimeOption) -> Attrs {
        match option {
            RuntimeOption::Shared => Attrs { shared: Some(true), ..self },
            RuntimeOption::Skip => Attrs { skip: Some(true), ..self },
            RuntimeOption::IoDriver => Attrs { io_driver: Some(true), ..self },
            RuntimeOption::TimeDriver => Attrs { time_driver: Some(true), ..self },
        }
    }

    /// `self` with the element at `index` in the list of the attribute at
    /// `attribute` taken in: an option that is new is given, one that is
    /// given already is a fault, and so is whatever names no option.
    pub open spec fn with_element(self, element: NestedMeta, attribute: int, index: int) -> Result<
        Attrs,
        Error,
    > {
        match element {
            NestedMeta::Word(word) => match option_named(word@) {
                Some(option) => if self.has(option) {
                    Err(fault_in_element(ErrorKind::Duplicated(option), attribute, index))
                } else {
                    Ok(self.with(option))
                },
                None => Err(fault_in_element(ErrorKind::Unexpected, attribute, index)),
            },
            NestedMeta::Other => Err(fault_in_element(ErrorKind::Unexpected, attribute, index)),
        }
    }

    /// `self` with the first `upto` of `elements` taken in, in their order,
    /// up to the first fault.
    pub open spec fn with_elements(
        self,
        elements: Seq<NestedMeta>,
        attribute: int,
        upto: int,
    ) -> Result<Attrs, Error>
        decreases upto,
    {
        if upto <= 0 {
            Ok(self)
        } else {
            match self.with_elements(elements, attribute, upto - 1) {
                Ok(attrs) => attrs.with_element(elements[upto - 1], attribute, upto - 1),
                Err(error) => Err(error),
            }
        }
    }

    /// `self` with the attribute at `index` taken in. Only a `runtime`
    /// attribute counts; it must have a list, whose elements are taken in.
    pub open spec fn with_attribute(self, attribute: Attribute, index: int) -> Result<
        Attrs,
        Error,
    > {
        if !is_runtime(attribute) {
            Ok(self)
        } else {
            match attribute.meta {
                None => Err(fault_in_attribute(ErrorKind::Syntax, index)),
                Some(Meta::List(elements)) => self.with_elements(
                    elements@,
                    index,
                    elements@.len() as int,
                ),
                Some(_) => Err(fault_in_attribute(ErrorKind::ExpectedList, index)),
            }
        }
    }

    /// `self` with the first `upto` of `attributes` taken in, in their
    /// order, up to the first fault.
    pub open spec fn with_attributes(self, attributes: Seq<Attribute>, upto: int) -> Result<
        Attrs,
        Error,
    >
        decreases upto,
    {
        if upto <= 0 {
            Ok(self)
        } else {
            match self.with_attributes(attributes, upto - 1) {
                Ok(attrs) => attrs.with_attribute(attributes[upto - 1], upto - 1),
                Err(error) => Err(error),
            }
        }
    }

    /// What `attributes` ask for, or the first fault in them.
    pub open spec fn of(attributes: Seq<Attribute>) -> Result<Attrs, Error> {
        Attrs::none().with_attributes(attributes, attributes.len() as int)
    }

    pub fn skip(&self) -> (skip: bool)
        ensures
            skip == (self.skip == Some(true)),
    {
        match self.skip {
            Some(skip) => skip,
            None => false,
        }
    }

    pub fn shared(&self, default_value: bool) -> (shared: bool)
        ensures
            shared == match self.shared {
                Some(shared) => shared,
                None => default_value,
            },
    {
        match self.shared {
            Some(shared) => shared,
            None => default_value,
        }
    }

    pub fn io_driver(&self) -> (io_driver: bool)
        ensures
            io_driver == (self.io_driver == Some(true)),
    {
        match self.io_driver {
            Some(io_driver) => io_driver,
            None => false,
        }
    }

    pub fn time_driver(&self) -> (time_driver: bool)
        ensures
            time_driver == (self.time_driver == Some(true)),
    {
        match self.time_driver {
            Some(time_driver) => time_driver,
            None => false,
        }
    }

    /// Reads what the `runtime` attributes among `input` ask for.
    pub fn get(input: &Vec<Attribute>) -> (attrs: Result<Self, Error>)
        ensures
            attrs == Attrs::of(input@),
    {
        let mut attrs = Attrs::default();
        let mut i: usize = 0;
        while i < input.len()
            invariant
                i <= input@.len(),
                Attrs::none().with_attributes(input@, i as int) == Ok::<Attrs, Error>(attrs),
            decreases input@.len() - i,
        {
            match attrs.take_in_attribute(&input[i], i) {
                Ok(next) => {
                    attrs = next;
                },
                Err(error) => {
                    proof {
                        lemma_fault_stays_in_attributes(
                            input@,
                            i as int + 1,
                            input@.len() as int,
                        );
                    }
                    return Err(error);
                },
            }
            i += 1;
        }
        Ok(attrs)
    }

    /// Takes in one attribute.
    fn take_in_attribute(&self, attribute: &Attribute, index: usize) -> (attrs: Result<
        Attrs,
        Error,
    >)
        ensures
            attrs == self.with_attribute(*attribute, index as int),
    {
        if !is_named(&attribute.path, Symbol::runtime()) {
            return Ok(*self);
        }
        match &attribute.meta {
            None => Err(
                Error { kind: ErrorKind::Syntax, field: None, attribute: Some(index), element: None },
            ),
            Some(Meta::List(elements)) => self.take_in_elements(elements, index),
            Some(_) => Err(
                Error {
                    kind: ErrorKind::ExpectedList,
                    field: None,
                    attribute: Some(index),
                    element: None,
                },
            ),
        }
    }

    /// Takes in the list of a `runtime` attribute.
    fn take_in_elements(&self, elements: &Vec<NestedMeta>, attribute: usize) -> (attrs: Result<
        Attrs,
        Error,
    >)
        ensures
            attrs == self.with_elements(elements@, attribute as int, elements@.len() as int),
    {
        let mut attrs = *self;
        let mut j: usize = 0;
        while j < elements.len()
            invariant
                j <= elements@.len(),
                self.with_elements(elements@, attribute as int, j as int) == Ok::<Attrs, Error>(
                    attrs,
                ),
            decreases elements@.len() - j,
        {
            match attrs.take_in(&elements[j], attribute, j) {
                Ok(next) => {
                    attrs = next;
                },
                Err(error) => {
                    proof {
                        lemma_fault_stays_in_elements(
                            *self,
                            elements@,
                            attribute as int,
                            j as int + 1,
                            elements@.len() as int,
                        );
                    }
                    return Err(error);
                },
            }
            j += 1;
        }
        Ok(attrs)
    }

    /// Takes in one element of the list of a `runtime` attribute.
    fn take_in(&self, element: &NestedMeta, attribute: usize, index: usize) -> (attrs: Result<
        Attrs,
        Error,
    >)
        ensures
            attrs == self.with_element(*element, attribute as int, index as int),
    {
        let unexpected = Error {
            kind: ErrorKind::Unexpected,
            field: None,
            attribute: Some(attribute),
            element: Some(index),
        };
        match element {
            NestedMeta::Other => Err(unexpected),
            NestedMeta::Word(word) => match option_of(word.as_str()) {
                None => Err(unexpected),
                Some(option) => {
                    let given = match option {
                        RuntimeOption::Shared => self.shared.is_some(),
                        RuntimeOption::Skip => self.skip.is_some(),
                        RuntimeOption::IoDriver => self.io_driver.is_some(),
                        RuntimeOption::TimeDriver => self.time_driver.is_some(),
                    };
                    if given {
                        Err(
                            Error {
                                kind: ErrorKind::Duplicated(option),
                                field: None,
                                attribute: Some(attribute),
                                element: Some(index),
                            },
                        )
                    } else {
                        let mut attrs = *self;
                        match option {
                            RuntimeOption::Shared => {
                                attrs.shared = Some(true);
                            },
                            RuntimeOption::Skip => {
                                attrs.skip = Some(true);
                            },
                            RuntimeOption::IoDriver => {
                                attrs.io_driver = Some(true);
                            },
                            RuntimeOption::TimeDriver => {
                                attrs.time_driver = Some(true);
                            },
                        }
                        Ok(attrs)
                    }
                },
            },
        }
    }
}

impl Field {
    /// The field that `node` declares. The attributes are read first: a
    /// fault in them comes before a missing name.
    pub open spec fn of(node: syntax::Field) -> Result<FieldView, Error> {
        match Attrs::of(node.attrs@) {
            Err(error) => Err(error),
            Ok(attrs) => match node.ident {
                Some(name) => Ok(FieldView { attrs, member: name@ }),
                None => Err(
                    Error {
                        kind: ErrorKind::UnnamedField,
                        field: None,
                        attribute: None,
                        element: None,
                    },
                ),
            },
        }
    }

    /// The fields that the first `upto` of `nodes` declare, or the first
    /// fault in them, placed in its field.
    pub open spec fn of_all(nodes: Seq<syntax::Field>, upto: int) -> Result<Seq<FieldView>, Error>
        decreases upto,
    {
        if upto <= 0 {
            Ok(Seq::empty())
        } else {
            match Field::of_all(nodes, upto - 1) {
                Err(error) => Err(error),
                Ok(fields) => match Field::of(nodes[upto - 1]) {
                    Ok(field) => Ok(fields.push(field)),
                    Err(error) => Err(Error { field: Some((upto - 1) as usize), ..error }),
                },
            }
        }
    }

    pub fn multiple_from_syn(fields: &Vec<syntax::Field>) -> (read: Result<Vec<Self>, Error>)
        ensures
            read matches Ok(all) ==> Field::of_all(fields@, fields@.len() as int) == Ok::<
                Seq<FieldView>,
                Error,
            >(Seq::new(all@.len(), |i: int| all@[i]@)),
            read matches Err(error) ==> Field::of_all(fields@, fields@.len() as int) == Err::<
                Seq<FieldView>,
                Error,
            >(error),
    {
        let mut all: Vec<Field> = Vec::new();
        let mut i: usize = 0;
        while i < fields.len()
            invariant
                i <= fields@.len(),
                Field::of_all(fields@, i as int) is Ok,
                Field::of_all(fields@, i as int)->Ok_0 =~= Seq::new(
                    all@.len(),
                    |i: int| all@[i]@,
                ),
            decreases fields@.len() - i,
        {
            match Field::from_syn(&fields[i]) {
                Ok(field) => {
                    let ghost before = Seq::new(all@.len(), |i: int| all@[i]@);
                    all.push(field);
                    assert(Seq::new(all@.len(), |i: int| all@[i]@) =~= before.push(field@));
                },
                Err(error) => {
                    proof {
                        lemma_fault_stays_in_fields(fields@, i as int + 1, fields@.len() as int);
                    }
                    return Err(
                        Error {
                            kind: error.kind,
                            field: Some(i),
                            attribute: error.attribute,
                            element: error.element,
                        },
                    );
                },
            }
            i += 1;
        }
        Ok(all)
    }

    pub fn from_syn(node: &syntax::Field) -> (read: Result<Self, Error>)
        ensures
            read matches Ok(field) ==> Field::of(*node) == Ok::<FieldView, Error>(field@),
            read matches Err(error) ==> Field::of(*node) == Err::<FieldView, Error>(error),
    {
        let attrs = match Attrs::get(&node.attrs) {
            Ok(attrs) => attrs,
            Err(error) => {
                return Err(error);
            },
        };
        match &node.ident {
            Some(name) => Ok(Self { attrs, member: name.clone() }),
            None => Err(
                Error {
                    kind: ErrorKind::UnnamedField,
                    field: None,
                    attribute: None,
                    element: None,
                },
            ),
        }
    }

    pub fn skip(&self) -> (skip: bool)
        ensures
            skip == (self.attrs.skip == Some(true)),
    {
        self.attrs.skip()
    }

    pub fn shared(&self, default_value: bool) -> (shared: bool)
        ensures
            shared == match self.attrs.shared {
                Some(shared) => shared,
                None => default_value,
            },
    {
        self.attrs.shared(default_value)
    }

    pub fn io_driver(&self) -> (io_driver: bool)
        ensures
            io_driver == (self.attrs.io_driver == Some(true)),
    {
        self.attrs.io_driver()
    }

    pub fn time_driver(&self) -> (time_driver: bool)
        ensures
            time_driver == (self.attrs.time_driver == Some(true)),
    {
        self.attrs.time_driver()
    }
}

impl Struct {
    /// The aggregate that the struct `node` with the fields `data`
    /// declares. The fields are read first: a fault in them comes before a
    /// fault in the attributes of the struct.
    pub open spec fn of(node: DeriveInput, data: Seq<syntax::Field>) -> Result<StructView, Error> {
        match Field::of_all(data, data.len() as int) {
            Err(error) => Err(error),
            Ok(fields) => match Attrs::of(node.attrs@) {
                Err(error) => Err(error),
                Ok(attrs) => Ok(StructView { ident: node.ident@, fields, attrs }),
            },
        }
    }

    pub fn from_syn(node: &DeriveInput, data: &Vec<syntax::Field>) -> (read: Result<Self, Error>)
        ensures
            read matches Ok(declared) ==> Struct::of(*node, data@) == Ok::<StructView, Error>(
                declared@,
            ),
            read matches Err(error) ==> Struct::of(*node, data@) == Err::<StructView, Error>(
                error,
            ),
    {
        let fields = match Field::multiple_from_syn(data) {
            Ok(fields) => fields,
            Err(error) => {
                return Err(error);
            },
        };
        let attrs = match Attrs::get(&node.attrs) {
            Ok(attrs) => attrs,
            Err(error) => {
                return Err(error);
            },
        };
        Ok(Struct { ident: node.ident.clone(), fields, attrs })
    }

    /// Whether the services run on the shared pool unless they say
    /// otherwise.
    pub fn default_is_shared(&self) -> (shared: bool)
        ensures
            shared == (self.attrs.shared == Some(true)),
    {
        self.attrs.shared(false)
    }
}

impl Input {
    /// The aggregate that `node` declares: only a struct declares one.
    pub open spec fn of(node: DeriveInput) -> Result<StructView, Error> {
        match node.data {
            Data::Struct(data) => Struct::of(node, data@),
            _ => Err(
                Error { kind: ErrorKind::NotAStruct, field: None, attribute: None, element: None },
            ),
        }
    }

    pub fn from_syn(node: &DeriveInput) -> (read: Result<Self, Error>)
        ensures
            read matches Ok(Input::Struct(declared)) ==> Input::of(*node) == Ok::<
                StructView,
                Error,
            >(declared@),
            read matches Err(error) ==> Input::of(*node) == Err::<StructView, Error>(error),
    {
        match &node.data {
            Data::Struct(data) => match Struct::from_syn(node, data) {
                Ok(declared) => Ok(Input::Struct(declared)),
                Err(error) => Err(error),
            },
            _ => Err(
                Error { kind: ErrorKind::NotAStruct, field: None, attribute: None, element: None },
            ),
        }
    }
}

impl Default for Attrs {
    fn default() -> (attrs: Self)
        ensures
            attrs == Attrs::none(),
    {
        Attrs {
            shared: None,
            skip: None,
            io_driver: None,
            time_driver: None,
            core_threads: None,
            max_threads: None,
            thread_stack_size: None,
        }
    }
}

/// Whether `path` is the lone identifier `symbol`.
fn is_named(path: &Option<String>, symbol: Symbol) -> (named: bool)
    ensures
        named == (*path is Some && path.unwrap()@ == symbol@),
{
    match path {
        Some(path) => symbol.is(path.as_str()),
        None => false,
    }
}

/// The option that `word` names, if it names one.
pub fn option_of(word: &str) -> (option: Option<RuntimeOption>)
    ensures
        option == option_named(word@),
{
    if Symbol::shared().is(word) {
        Some(RuntimeOption::Shared)
    } else if Symbol::skip().is(word) {
        Some(RuntimeOption::Skip)
    } else if Symbol::io_driver().is(word) {
        Some(RuntimeOption::IoDriver)
    } else if Symbol::time_driver().is(word) {
        Some(RuntimeOption::TimeDriver)
    } else {
        None
    }
}

/// Whether `element` names `option`.
pub open spec fn element_names(element: NestedMeta, option: RuntimeOption) -> bool {
    element is Word && option_named(element->Word_0@) == Some(option)
}

/// Whether one of the first `upto` of `elements` names `option`.
pub open spec fn listed(elements: Seq<NestedMeta>, upto: int, option: RuntimeOption) -> bool {
    exists|e: int| 0 <= e < upto && #[trigger] element_names(elements[e], option)
}

/// Whether `attribute` is a `runtime` attribute whose list names `option`.
pub open spec fn asks_for(attribute: Attribute, option: RuntimeOption) -> bool {
    &&& is_runtime(attribute)
    &&& attribute.meta is Some
    &&& attribute.meta->Some_0 is List
    &&& listed(
        attribute.meta->Some_0->List_0@,
        attribute.meta->Some_0->List_0@.len() as int,
        option,
    )
}

/// Whether one of the first `upto` of `attributes` asks for `option`.
pub open spec fn mentioned(attributes: Seq<Attribute>, upto: int, option: RuntimeOption) -> bool {
    exists|a: int| 0 <= a < upto && #[trigger] asks_for(attributes[a], option)
}

impl Attrs {
    /// Whether `self` gives no more than `earlier` and the options: what is
    /// given is given as `true`, what `earlier` gave stays, and the sizes
    /// stay as they were.
    pub open spec fn extends(self, earlier: Attrs) -> bool {
        &&& self.shared == earlier.shared || (earlier.shared is None && self.shared == Some(true))
        &&& self.skip == earlier.skip || (earlier.skip is None && self.skip == Some(true))
        &&& self.io_driver == earlier.io_driver || (earlier.io_driver is None && self.io_driver
            == Some(true))
        &&& self.time_driver == earlier.time_driver || (earlier.time_driver is None
            && self.time_driver == Some(true))
        &&& self.core_threads == earlier.core_threads
        &&& self.max_threads == earlier.max_threads
        &&& self.thread_stack_size == earlier.thread_stack_size
    }
}

/// Each of the four options has its word, and nothing else names an option.
pub proof fn lemma_options_have_their_words()
    ensures
        option_named("shared"@) == Some(RuntimeOption::Shared),
        option_named("skip"@) == Some(RuntimeOption::Skip),
        option_named("io"@) == Some(RuntimeOption::IoDriver),
        option_named("time"@) == Some(RuntimeOption::TimeDriver),
        option_named("runtime"@) is None,
        forall|word: Seq<char>|
            word != "shared"@ && word != "skip"@ && word != "io"@ && word != "time"@ ==> (
            #[trigger] option_named(word)) is None,
{
    lemma_symbols_differ();
}

/// A list that is read without fault gives the options that it names, on
/// top of those given before, and nothing else.
pub proof fn lemma_elements_give_what_they_name(
    start: Attrs,
    elements: Seq<NestedMeta>,
    attribute: int,
    upto: int,
)
    requires
        0 <= upto <= elements.len(),
        start.with_elements(elements, attribute, upto) is Ok,
    ensures
        start.with_elements(elements, attribute, upto)->Ok_0.extends(start),
        forall|option: RuntimeOption|
            (#[trigger] start.with_elements(elements, attribute, upto)->Ok_0.has(option)) <==> (
            start.has(option) || listed(elements, upto, option)),
    decreases upto,
{
    let read = start.with_elements(elements, attribute, upto)->Ok_0;
    if upto > 0 {
        let earlier = start.with_elements(elements, attribute, upto - 1);
        assert(earlier is Ok);
        lemma_elements_give_what_they_name(start, elements, attribute, upto - 1);
        let before = earlier->Ok_0;
        let element = elements[upto - 1];
        assert(before.with_element(element, attribute, upto - 1) == Ok::<Attrs, Error>(read));
        let given = option_named(element->Word_0@)->Some_0;
        assert(element_names(element, given));
        assert(read == before.with(given));
        assert forall|option: RuntimeOption| (#[trigger] read.has(option)) <==> (start.has(option)
            || listed(elements, upto, option)) by {
            assert(before.has(option) <==> (start.has(option) || listed(
                elements,
                upto - 1,
                option,
            )));
            if listed(elements, upto - 1, option) {
                let e = choose|e: int|
                    0 <= e < upto - 1 && #[trigger] element_names(elements[e], option);
                assert(element_names(elements[e], option));
            }
            if listed(elements, upto, option) && !listed(elements, upto - 1, option) {
                let e = choose|e: int|
                    0 <= e < upto && #[trigger] element_names(elements[e], option);
                if e < upto - 1 {
                    assert(element_names(elements[e], option));
                }
                assert(option == given);
            }
        }
    } else {
        assert(read == start);
        assert forall|option: RuntimeOption| (#[trigger] read.has(option)) <==> (start.has(option)
            || listed(elements, upto, option)) by {}
    }
}

/// Attributes that are read without fault give exactly the options that
/// their `runtime` attributes name, each as `true`, and no size.
pub proof fn lemma_attrs_are_what_is_asked_for(attributes: Seq<Attribute>, upto: int)
    requires
        0 <= upto <= attributes.len(),
        Attrs::none().with_attributes(attributes, upto) is Ok,
    ensures
        Attrs::none().with_attributes(attributes, upto)->Ok_0.extends(Attrs::none()),
        forall|option: RuntimeOption|
            (#[trigger] Attrs::none().with_attributes(attributes, upto)->Ok_0.has(option))
                <==> mentioned(attributes, upto, option),
    decreases upto,
{
    let read = Attrs::none().with_attributes(attributes, upto)->Ok_0;
    if upto > 0 {
        let earlier = Attrs::none().with_attributes(attributes, upto - 1);
        assert(earlier is Ok);
        lemma_attrs_are_what_is_asked_for(attributes, upto - 1);
        let before = earlier->Ok_0;
        let attribute = attributes[upto - 1];
        assert(before.with_attribute(attribute, upto - 1) == Ok::<Attrs, Error>(read));
        if is_runtime(attribute) {
            let elements = attribute.meta->Some_0->List_0@;
            lemma_elements_give_what_they_name(before, elements, upto - 1, elements.len() as int);
        }
        assert forall|option: RuntimeOption| (#[trigger] read.has(option)) <==> mentioned(
            attributes,
            upto,
            option,
        ) by {
            assert(before.has(option) <==> mentioned(attributes, upto - 1, option));
            if mentioned(attributes, upto - 1, option) {
                let a = choose|a: int| 0 <= a < upto - 1 && #[trigger] asks_for(attributes[a], option);
                assert(asks_for(attributes[a], option));
            }
            if mentioned(attributes, upto, option) && !mentioned(attributes, upto - 1, option) {
                let a = choose|a: int| 0 <= a < upto && #[trigger] asks_for(attributes[a], option);
                if a < upto - 1 {
                    assert(asks_for(attributes[a], option));
                }
                assert(asks_for(attribute, option));
            }
            if read.has(option) && !before.has(option) {
                assert(asks_for(attribute, option));
            }
        }
    } else {
        assert forall|option: RuntimeOption| (#[trigger] read.has(option)) <==> mentioned(
            attributes,
            upto,
            option,
        ) by {}
    }
}

/// A fault among the first elements is the fault of the whole list.
pub proof fn lemma_fault_stays_in_elements(
    start: Attrs,
    elements: Seq<NestedMeta>,
    attribute: int,
    upto: int,
    end: int,
)
    requires
        0 <= upto <= end,
        start.with_elements(elements, attribute, upto) is Err,
    ensures
        start.with_elements(elements, attribute, end) == start.with_elements(
            elements,
            attribute,
            upto,
        ),
    decreases end - upto,
{
    if upto < end {
        lemma_fault_stays_in_elements(start, elements, attribute, upto, end - 1);
    }
}

/// A fault among the first fields is the fault of all of them.
pub proof fn lemma_fault_stays_in_fields(nodes: Seq<syntax::Field>, upto: int, end: int)
    requires
        0 <= upto <= end,
        Field::of_all(nodes, upto) is Err,
    ensures
        Field::of_all(nodes, end) == Field::of_all(nodes, upto),
    decreases end - upto,
{
    if upto < end {
        lemma_fault_stays_in_fields(nodes, upto, end - 1);
    }
}

/// A fault among the first attributes is the fault of all of them.
pub proof fn lemma_fault_stays_in_attributes(attributes: Seq<Attribute>, upto: int, end: int)
    requires
        0 <= upto <= end,
        Attrs::none().with_attributes(attributes, upto) is Err,
    ensures
        Attrs::none().with_attributes(attributes, end) == Attrs::none().with_attributes(
            attributes,
            upto,
        ),
    decreases end - upto,
{
    if upto < end {
        lemma_fault_stays_in_attributes(attributes, upto, end - 1);
    }
}

} // verus!
