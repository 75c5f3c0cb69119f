//! From a declared aggregate to what is generated for it: the services it
//! holds, under which names, and the pool that each of them runs on.

use super::ast::{Field, FieldView, Input, Struct, StructView};
use vstd::prelude::*;

verus! {

/// The pool that a service runs on.
#[derive(Clone, Debug, PartialEq, Eq)]
pub enum Placement {
    /// The pool that the shared services have in common.
    Shared,
    /// A pool of its own, with threads named after the service.
    Individual { thread_name: String, io_driver: bool, time_driver: bool },
}

/// A `Placement` with its name as a sequence of characters.
pub enum PlacementView {
    Shared,
    Individual { thread_name: Seq<char>, io_driver: bool, time_driver: bool },
}

impl View for Placement {
    type V = PlacementView;

    open spec fn view(&self) -> PlacementView {
        match *self {
            Placement::Shared => PlacementView::Shared,
            Placement::Individual { thread_name, io_driver, time_driver } => {
                PlacementView::Individual { thread_name: thread_name@, io_driver, time_driver }
            },
        }
    }
}

/// One service of a generated aggregate.
#[derive(Clone, Debug, PartialEq, Eq)]
pub struct Service {
    /// The identifier under which the watchdog addresses the service.
    pub name: String,
    pub placement: Placement,
}

/// A `Service` with its names as sequences of characters.
pub struct ServiceView {
    pub name: Seq<char>,
    pub placement: PlacementView,
}

impl View for Service {
    type V = ServiceView;

    open spec fn view(&self) -> ServiceView {
        ServiceView { name: self.name@, placement: self.placement@ }
    }
}

/// What is generated for a declared aggregate.
#[derive(Clone, Debug, PartialEq, Eq)]
pub struct Aggregate {
    /// The name of the declared struct.
    pub ident: String,
    /// Its services, in the order of their declaration.
    pub services: Vec<Service>,
}

/// An `Aggregate` with its names as sequences of characters.
pub struct AggregateView {
    pub ident: Seq<char>,
    pub services: Seq<ServiceView>,
}

impl View for Aggregate {
    type V = AggregateView;

    open spec fn view(&self) -> AggregateView {
        AggregateView {
            ident: self.ident@,
            services: Seq::new(self.services@.len(), |i: int| self.services@[i]@),
        }
    }
}

impl FieldView {
    /// Whether the field is left out of the aggregate.
    pub open spec fn skipped(self) -> bool {
        self.attrs.skip == Some(true)
    }

    /// The pool of the service of the field: the shared one if the field
    /// says so, or says nothing where `default_is_shared`; else one of its
    /// own, named after the field, with the drivers that the field asks for.
    pub open spec fn placement(self, default_is_shared: bool) -> PlacementView {
        let shared = match self.attrs.shared {
            Some(shared) => shared,
            None => default_is_shared,
        };
        if shared {
            PlacementView::Shared
        } else {
            PlacementView::Individual {
                thread_name: self.member,
                io_driver: self.attrs.io_driver == Some(true),
                time_driver: self.attrs.time_driver == Some(true),
            }
        }
    }

    /// The service of the field.
    pub open spec fn service(self, default_is_shared: bool) -> ServiceView {
        ServiceView { name: self.member, placement: self.placement(default_is_shared) }
    }
}

/// Those of the first `upto` of `fields` that are not skipped, in their
/// order.
pub open spec fn kept(fields: Seq<FieldView>, upto: int) -> Seq<FieldView>
    decreases upto,
{
    if upto <= 0 {
        Seq::empty()
    } else if fields[upto - 1].skipped() {
        kept(fields, upto - 1)
    } else {
        kept(fields, upto - 1).push(fields[upto - 1])
    }
}

impl StructView {
    /// The fields that are services.
    pub open spec fn services(self) -> Seq<FieldView> {
        kept(self.fields, self.fields.len() as int)
    }

    pub open spec fn default_is_shared(self) -> bool {
        self.attrs.shared == Some(true)
    }

    /// The identifiers of the services, in the order of their declaration.
    pub open spec fn possible_values(self) -> Seq<Seq<char>> {
        Seq::new(self.services().len(), |i: int| self.services()[i].member)
    }

    /// What is generated for the aggregate.
    pub open spec fn generated(self) -> AggregateView {
        AggregateView {
            ident: self.ident,
            services: Seq::new(
                self.services().len(),
                |i: int| self.services()[i].service(self.default_is_shared()),
            ),
        }
    }
}

impl Field {
    /// The pool of the service of the field.
    pub fn placement(&self, default_is_shared: bool) -> (placement: Placement)
        ensures
            placement@ == self@.placement(default_is_shared),
    {
        if self.shared(default_is_shared) {
            Placement::Shared
        } else {
            Placement::Individual {
                thread_name: self.member.clone(),
                io_driver: self.io_driver(),
                time_driver: self.time_driver(),
            }
        }
    }
}

impl Struct {
    /// The fields that are services: those that are not skipped.
    pub fn fields(&self) -> (services: Vec<&Field>)
        ensures
            Seq::new(services@.len(), |i: int| services@[i]@) == self@.services(),
    {
        let mut services: Vec<&Field> = Vec::new();
        let mut i: usize = 0;
        while i < self.fields.len()
            invariant
                i <= self.fields@.len(),
                self@.fields.len() == self.fields@.len(),
                Seq::new(services@.len(), |k: int| services@[k]@) =~= kept(self@.fields, i as int),
            decreases self.fields@.len() - i,
        {
            let ghost before = Seq::new(services@.len(), |k: int| services@[k]@);
            let field = &self.fields[i];
            assert(field@ == self@.fields[i as int]);
            if !field.skip() {
                services.push(field);
                assert(Seq::new(services@.len(), |k: int| services@[k]@) =~= before.push(field@));
            }
            i += 1;
        }
        services
    }

    /// The identifiers of the services, in the order of their declaration.
    pub fn possible_values(&self) -> (values: Vec<String>)
        ensures
            Seq::new(values@.len(), |i: int| values@[i]@) == self@.possible_values(),
    {
        let services = self.fields();
        let mut values: Vec<String> = Vec::new();
        let mut i: usize = 0;
        while i < services.len()
            invariant
                i <= services@.len(),
                Seq::new(services@.len(), |k: int| services@[k]@) == self@.services(),
                values@.len() == i,
                forall|k: int| 0 <= k < i ==> (#[trigger] values@[k])@ == self@.services()[k].member,
            decreases services@.len() - i,
        {
            assert(Seq::new(services@.len(), |k: int| services@[k]@)[i as int]
                == services@[i as int]@);
            values.push(services[i].member.clone());
            i += 1;
        }
        assert(self@.services().len() == services@.len()) by {
            assert(Seq::new(services@.len(), |k: int| services@[k]@).len() == services@.len());
        }
        assert(Seq::new(values@.len(), |i: int| values@[i]@) =~= self@.possible_values());
        values
    }

    /// The services of the aggregate, each with the pool it runs on.
    pub fn placements(&self) -> (placed: Vec<Service>)
        ensures
            Seq::new(placed@.len(), |i: int| placed@[i]@) == self@.generated().services,
    {
        let default_is_shared = self.default_is_shared();
        let services = self.fields();
        let mut placed: Vec<Service> = Vec::new();
        let mut i: usize = 0;
        while i < services.len()
            invariant
                i <= services@.len(),
                default_is_shared == self@.default_is_shared(),
                Seq::new(services@.len(), |k: int| services@[k]@) == self@.services(),
                placed@.len() == i,
                forall|k: int|
                    0 <= k < i ==> (#[trigger] placed@[k])@ == self@.services()[k].service(
                        default_is_shared,
                    ),
            decreases services@.len() - i,
        {
            assert(Seq::new(services@.len(), |k: int| services@[k]@)[i as int]
                == services@[i as int]@);
            let field = services[i];
            placed.push(
                Service { name: field.member.clone(), placement: field.placement(default_is_shared) },
            );
            i += 1;
        }
        assert(self@.services().len() == services@.len()) by {
            assert(Seq::new(services@.len(), |k: int| services@[k]@).len() == services@.len());
        }
        assert(Seq::new(placed@.len(), |i: int| placed@[i]@) =~= self@.generated().services);
        placed
    }
}

/// What is generated for the struct `input`.
pub fn gen_input(input: Struct) -> (generated: Aggregate)
    ensures
        generated@ == input@.generated(),
{
    let services = input.placements();
    Aggregate { ident: input.ident, services }
}

/// What is generated for `input`.
pub fn gen(input: Input) -> (generated: Aggregate)
    ensures
        input matches Input::Struct(declared) ==> generated@ == declared@.generated(),
{
    match input {
        Input::Struct(input) => gen_input(input),
    }
}

/// The identifiers by which the services of a generated aggregate are
/// addressed are the names of the fields that are not skipped, each once for
/// its field and in the order of the declaration.
pub proof fn lemma_generated_names_are_possible_values(declared: StructView)
    ensures
        declared.generated().services.len() == declared.possible_values().len(),
        forall|i: int|
            0 <= i < declared.possible_values().len() ==> (
            #[trigger] declared.generated().services[i]).name == declared.possible_values()[i],
{
}

/// Whether `field` is one of the first `upto` of `fields`.
pub open spec fn declared_before(fields: Seq<FieldView>, upto: int, field: FieldView) -> bool {
    exists|i: int| 0 <= i < upto && i < fields.len() && #[trigger] fields[i] == field
}

/// The fields that are kept are the fields of the declaration that are not
/// skipped: each kept field is one of those, and each of those is kept.
pub proof fn lemma_kept_are_the_unskipped(fields: Seq<FieldView>, upto: int)
    requires
        0 <= upto <= fields.len(),
    ensures
        forall|k: int|
            0 <= k < kept(fields, upto).len() ==> !(#[trigger] kept(fields, upto)[k]).skipped()
                && declared_before(fields, upto, kept(fields, upto)[k]),
        forall|i: int|
            0 <= i < upto && !(#[trigger] fields[i]).skipped() ==> kept(fields, upto).contains(
                fields[i],
            ),
    decreases upto,
{
    if upto > 0 {
        lemma_kept_are_the_unskipped(fields, upto - 1);
        let earlier = kept(fields, upto - 1);
        let now = kept(fields, upto);
        assert forall|k: int| 0 <= k < now.len() implies !(#[trigger] now[k]).skipped()
            && declared_before(fields, upto, now[k]) by {
            if k < earlier.len() {
                assert(now[k] == earlier[k]);
                assert(declared_before(fields, upto - 1, earlier[k]));
                let at = choose|at: int|
                    0 <= at < upto - 1 && at < fields.len() && #[trigger] fields[at] == earlier[k];
                assert(fields[at] == now[k]);
            } else {
                assert(now[k] == fields[upto - 1]);
            }
        }
        assert forall|i: int| 0 <= i < upto && !(#[trigger] fields[i]).skipped() implies now.contains(
            fields[i],
        ) by {
            if i < upto - 1 {
                assert(earlier.contains(fields[i]));
                let at = choose|at: int| 0 <= at < earlier.len() && earlier[at] == fields[i];
                assert(now[at] == fields[i]);
            } else {
                assert(now[now.len() - 1] == fields[i]);
            }
        }
    }
}

} // verus!
