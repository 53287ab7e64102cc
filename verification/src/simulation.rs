//! The simulation-side collaborators of an instrument component: the
//! construction-time variable registry, the opaque handles it issues, and
//! the per-tick reader of raw variable values.

use vstd::prelude::*;

verus! {

/// Opaque handle identifying one named external simulation variable.
///
/// The registry issues a handle as the position of the variable's name in
/// its name table, so handles compare equal exactly when they were issued
/// for the same name.
#[derive(Clone, Copy, Debug, PartialEq, Eq, Structural)]
pub struct VariableIdentifier {
    pub index: usize,
}

/// The construction-time registry mapping variable names to stable handles.
///
/// It is populated while the simulation aggregates are being built and is
/// not consulted again afterwards; every instrument keeps the handles it
/// obtained here.
pub struct InitContext {
    pub names: Vec<String>,
}

impl InitContext {
    /// No name is registered twice, so a name determines its handle.
    pub open spec fn wf(self) -> bool {
        forall|i: int, j: int|
            0 <= i < j < self.names@.len() ==> self.names@[i]@ != self.names@[j]@
    }

    /// Whether some registered variable carries this name.
    pub open spec fn has_name(self, name: Seq<char>) -> bool {
        exists|i: int| 0 <= i < self.names@.len() && self.names@[i]@ == name
    }

    /// The position of the variable with this name, if one is registered.
    pub open spec fn id_index(self, name: Seq<char>) -> int {
        choose|i: int| 0 <= i < self.names@.len() && self.names@[i]@ == name
    }

    /// An empty registry.
    pub fn new() -> (r: InitContext)
        ensures
            r.wf(),
            r.names@.len() == 0,
    {
        InitContext { names: Vec::new() }
    }

    /// Returns the handle of the variable called `name`, registering the
    /// name first if it is new. Registration never disturbs the handles
    /// already issued: earlier names keep their positions.
    pub fn get_identifier(&mut self, name: String) -> (r: VariableIdentifier)
        requires
            old(self).wf(),
        ensures
            final(self).wf(),
            old(self).names@.is_prefix_of(final(self).names@),
            r.index < final(self).names@.len(),
            final(self).names@[r.index as int]@ == name@,
            final(self).has_name(name@),
            r.index == final(self).id_index(name@),
            old(self).has_name(name@) ==> *final(self) == *old(self),
            !old(self).has_name(name@) ==> final(self).names@ == old(self).names@.push(name),
            forall|n: Seq<char>|
                #[trigger] old(self).has_name(n) ==> final(self).has_name(n)
                    && final(self).id_index(n) == old(self).id_index(n),
    {
        let count: usize = self.names.len();
        let mut i: usize = 0;
        while i < count
            invariant
                old(self).wf(),
                count == self.names@.len(),
                *self == *old(self),
                i <= count,
                forall|j: int| 0 <= j < i ==> self.names@[j]@ != name@,
            decreases count - i,
        {
            if self.names[i] == name {
                proof {
                    lemma_unique_name_index(*self, name@, i as int);
                    assert(self.names@.subrange(0, self.names@.len() as int) =~= self.names@);
                }
                return VariableIdentifier { index: i };
            }
            i += 1;
        }
        let r = VariableIdentifier { index: count };
        self.names.push(name);
        proof {
            assert(self.names@[count as int] == name);
            assert forall|a: int, b: int|
                0 <= a < b < self.names@.len() implies self.names@[a]@ != self.names@[b]@ by {
                if b < count {
                    assert(old(self).names@[a]@ != old(self).names@[b]@);
                }
            }
            lemma_unique_name_index(*self, name@, count as int);
            assert(self.names@.subrange(0, count as int) =~= old(self).names@);
            assert forall|n: Seq<char>| #[trigger] old(self).has_name(n) implies
                self.has_name(n) && self.id_index(n) == old(self).id_index(n) by {
                let w = old(self).id_index(n);
                assert(0 <= w < old(self).names@.len() && old(self).names@[w]@ == n);
                assert(self.names@[w]@ == n);
                lemma_unique_name_index(*self, n, w);
            }
        }
        r
    }

    /// The name for which the handle `id` was issued.
    pub fn name_of(&self, id: &VariableIdentifier) -> (r: &String)
        requires
            id.index < self.names@.len(),
        ensures
            r@ == self.names@[id.index as int]@,
    {
        &self.names[id.index]
    }
}

/// In a well-formed registry a name sits at one position only, so `id_index`
/// returns exactly the position where the name is found.
proof fn lemma_unique_name_index(ctx: InitContext, name: Seq<char>, i: int)
    requires
        ctx.wf(),
        0 <= i < ctx.names@.len(),
        ctx.names@[i]@ == name,
    ensures
        ctx.has_name(name),
        ctx.id_index(name) == i,
{
    assert(ctx.has_name(name));
    let k = ctx.id_index(name);
    assert(0 <= k < ctx.names@.len() && ctx.names@[k]@ == name);
    if k < i {
        assert(ctx.names@[k]@ != ctx.names@[i]@);
    } else if i < k {
        assert(ctx.names@[i]@ != ctx.names@[k]@);
    }
}

/// One element of a simulation aggregate: anything that refreshes itself
/// from the shared variable store once per tick.
///
/// The parent aggregate holds its elements behind this capability and
/// invokes the read step uniformly, never looking at an element's concrete
/// shape; each implementor says through the two spec functions what its
/// read step needs and what it leaves behind.
pub trait SimulationElement: Sized {
    /// Whether `reader` holds everything this element's read step needs.
    spec fn can_read(self, reader: SimulatorReader) -> bool;

    /// The element's state after a read step from `reader`.
    spec fn read_result(self, reader: SimulatorReader) -> Self;

    /// The read step: refreshes the element from the tick's raw values.
    fn read(&mut self, reader: &SimulatorReader)
        requires
            old(self).can_read(*reader),
        ensures
            *final(self) == old(self).read_result(*reader),
    ;
}

/// One simulation tick's raw variable values, indexed by handle.
///
/// Raw values are non-negative integers: discrete knob and switch readings
/// directly, and the backlight potentiometer as a whole percentage.
#[derive(Debug)]
pub struct SimulatorReader {
    pub values: Vec<usize>,
}

impl SimulatorReader {
    /// Whether the handle resolves to a stored value.
    pub open spec fn has_value(self, id: VariableIdentifier) -> bool {
        id.index < self.values@.len()
    }

    /// The raw value stored for the handle.
    pub open spec fn raw(self, id: VariableIdentifier) -> usize {
        self.values@[id.index as int]
    }

    /// A reader over one tick's raw values; `values[i]` belongs to the
    /// variable whose handle has position `i`.
    pub fn new(values: Vec<usize>) -> (r: SimulatorReader)
        ensures
            r.values == values,
    {
        SimulatorReader { values }
    }

    /// The raw value of the variable, as a non-negative integer.
    pub fn read_usize(&self, id: &VariableIdentifier) -> (r: usize)
        requires
            self.has_value(*id),
        ensures
            r == self.raw(*id),
    {
        self.values[id.index]
    }

    /// The raw value of the variable, narrowed to a small enumerant.
    pub fn read_u8(&self, id: &VariableIdentifier) -> (r: u8)
        requires
            self.has_value(*id),
            self.raw(*id) <= u8::MAX as usize,
        ensures
            r == self.raw(*id) as u8,
    {
        self.values[id.index] as u8
    }

    /// The raw value of the variable, read as a switch state: engaged
    /// exactly when the raw value is non-zero.
    pub fn read_bool(&self, id: &VariableIdentifier) -> (r: bool)
        requires
            self.has_value(*id),
        ensures
            r == (self.raw(*id) != 0),
    {
        self.values[id.index] != 0
    }
}

} // verus!
