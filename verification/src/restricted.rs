use vstd::prelude::*;

use crate::text::same_text;

verus! {

/// Why a value could not be serialized.
#[derive(Debug, Clone, Copy, PartialEq, Eq)]
pub enum SerializeError {
    /// The value has a shape that the serializer cannot represent.
    UnsupportedType {
        /// The rejected construct.
        ty: &'static str,
        /// What the serializer does support.
        supported: &'static str,
    },
}

/// A serializer method that is declared as unsupported.
#[derive(Debug, Clone, Copy, PartialEq, Eq)]
pub enum Forwarded {
    /// A method of one argument, labelled by the type of the argument.
    Simple { method: &'static str, arg: &'static str },
    /// A method without arguments, labelled by what it stands for.
    Unit { method: &'static str, ty: &'static str },
    /// Any other method, labelled by a description.
    Compound { method: &'static str, message: &'static str },
}

impl Forwarded {
    /// The name of the method.
    pub open spec fn spec_method(self) -> &'static str {
        match self {
            Forwarded::Simple { method, .. } => method,
            Forwarded::Unit { method, .. } => method,
            Forwarded::Compound { method, .. } => method,
        }
    }

    /// The label under which the method's construct is reported.
    pub open spec fn spec_label(self) -> &'static str {
        match self {
            Forwarded::Simple { arg, .. } => arg,
            Forwarded::Unit { ty, .. } => ty,
            Forwarded::Compound { message, .. } => message,
        }
    }

    /// The name of the method.
    pub fn method(&self) -> (method: &'static str)
        ensures
            method == self.spec_method(),
    {
        match self {
            Forwarded::Simple { method, .. } => method,
            Forwarded::Unit { method, .. } => method,
            Forwarded::Compound { method, .. } => method,
        }
    }

    /// The label under which the method's construct is reported.
    pub fn label(&self) -> (label: &'static str)
        ensures
            label == self.spec_label(),
    {
        match self {
            Forwarded::Simple { arg, .. } => arg,
            Forwarded::Unit { ty, .. } => ty,
            Forwarded::Compound { message, .. } => message,
        }
    }
}

/// The unsupported side of a capability-restricted serializer: the methods
/// it rejects, each with the label it is reported under, and the description
/// of what the serializer supports instead.
#[derive(Debug)]
pub struct Forwarding {
    supported: &'static str,
    entries: Vec<Forwarded>,
}

impl View for Forwarding {
    type V = Map<Seq<char>, &'static str>;

    /// The label of each rejected method, by the method's name.
    closed spec fn view(&self) -> Map<Seq<char>, &'static str> {
        Map::new(
            |method: Seq<char>| Self::declares(self.entries@, method),
            |method: Seq<char>| self.entries@[Self::position(self.entries@, method)].spec_label(),
        )
    }
}

impl Forwarding {
    spec fn declares(entries: Seq<Forwarded>, method: Seq<char>) -> bool {
        exists|i: int| 0 <= i < entries.len() && (#[trigger] entries[i]).spec_method()@ == method
    }

    spec fn position(entries: Seq<Forwarded>, method: Seq<char>) -> int {
        choose|i: int| 0 <= i < entries.len() && (#[trigger] entries[i]).spec_method()@ == method
    }

    /// No method is declared twice.
    #[verifier::type_invariant]
    spec fn distinct_methods(self) -> bool {
        forall|i: int, j: int|
            0 <= i < j < self.entries@.len() ==> (#[trigger] self.entries@[i]).spec_method()@ != (
            #[trigger] self.entries@[j]).spec_method()@
    }

    /// What the serializer supports, as reported in every error.
    pub closed spec fn spec_supported(&self) -> &'static str {
        self.supported
    }

    /// The error that invoking `method` yields.
    pub open spec fn rejection(&self, method: Seq<char>) -> SerializeError {
        SerializeError::UnsupportedType { ty: self@[method], supported: self.spec_supported() }
    }

    /// A serializer that supports `supported` and, so far, rejects nothing.
    pub fn new(supported: &'static str) -> (table: Self)
        ensures
            table@ == Map::<Seq<char>, &'static str>::empty(),
            table.spec_supported() == supported,
    {
        let table = Forwarding { supported, entries: Vec::new() };
        assert(table@ =~= Map::<Seq<char>, &'static str>::empty());
        table
    }

    /// What the serializer supports, as reported in every error.
    pub fn supported(&self) -> (supported: &'static str)
        ensures
            supported == self.spec_supported(),
    {
        self.supported
    }

    fn find(&self, method: &str) -> (found: Option<usize>)
        ensures
            match found {
                Some(i) => i < self.entries@.len() && self.entries@[i as int].spec_method()@
                    == method@,
                None => !Self::declares(self.entries@, method@),
            },
    {
        let mut i: usize = 0;
        while i < self.entries.len()
            invariant
                i <= self.entries@.len(),
                forall|k: int| 0 <= k < i ==> (#[trigger] self.entries@[k]).spec_method()@ != method@,
            decreases self.entries@.len() - i,
        {
            if same_text(self.entries[i].method(), method) {
                return Some(i);
            }
            i += 1;
        }
        None
    }

    /// Whether the serializer rejects `method`.
    pub fn forwards(&self, method: &str) -> (forwarded: bool)
        ensures
            forwarded == self@.dom().contains(method@),
    {
        self.find(method).is_some()
    }

    /// Invokes `method` on the serializer. A rejected method yields the error
    /// that names its label and the supported set, and never anything else;
    /// `None` says that the method is not among the rejected ones.
    pub fn invoke(&self, method: &str) -> (outcome: Option<SerializeError>)
        ensures
            outcome == if self@.dom().contains(method@) {
                Some(self.rejection(method@))
            } else {
                None
            },
    {
        proof {
            use_type_invariant(self);
        }
        match self.find(method) {
            Some(i) => {
                assert(Self::position(self.entries@, method@) == i as int);
                Some(
                    SerializeError::UnsupportedType {
                        ty: self.entries[i].label(),
                        supported: self.supported,
                    },
                )
            },
            None => None,
        }
    }

    /// Declares `entry` as rejected, unless its method is declared already:
    /// then the table stays as it is and the answer is `false`.
    pub fn declare(&mut self, entry: Forwarded) -> (added: bool)
        ensures
            final(self).spec_supported() == old(self).spec_supported(),
            added == !old(self)@.dom().contains(entry.spec_method()@),
            final(self)@ == if added {
                old(self)@.insert(entry.spec_method()@, entry.spec_label())
            } else {
                old(self)@
            },
    {
        proof {
            use_type_invariant(&*self);
        }
        if self.find(entry.method()).is_some() {
            return false;
        }
        let ghost before = self.entries@;
        let mut entries = Vec::new();
        std::mem::swap(&mut entries, &mut self.entries);
        entries.push(entry);
        self.entries = entries;
        proof {
            let after = self.entries@;
            let name = entry.spec_method()@;
            assert(after == before.push(entry));
            assert forall|method: Seq<char>| Self::declares(after, method) <==> (method == name
                || Self::declares(before, method)) by {
                if Self::declares(before, method) {
                    assert(after[Self::position(before, method)].spec_method()@ == method);
                }
                if method == name {
                    assert(after[before.len() as int].spec_method()@ == method);
                }
            }
            assert forall|method: Seq<char>| Self::declares(after, method) implies after[Self::position(
                after,
                method,
            )].spec_label() == if method == name {
                entry.spec_label()
            } else {
                before[Self::position(before, method)].spec_label()
            } by {
                // `after` declares no method twice, so a method has one position.
                let i = if method == name {
                    before.len() as int
                } else {
                    Self::position(before, method)
                };
                let j = Self::position(after, method);
                assert(after[i].spec_method()@ == method);
                if i < j {
                    assert(after[i].spec_method()@ != after[j].spec_method()@);
                }
                if j < i {
                    assert(after[j].spec_method()@ != after[i].spec_method()@);
                }
            }
            assert(self@ =~= old(self)@.insert(name, entry.spec_label()));
        }
        true
    }
}

} // verus!
