//! The scene model: fixed-capacity lists of spheres and lights, built once before a
//! render and then only read.
use vstd::prelude::*;

verus! {

/// The most spheres a scene holds.
pub const MAX_SPHERES: usize = 64;

/// The most lights a scene holds.
pub const MAX_LIGHTS: usize = 10;

/// An item was refused because the list was full.
#[derive(Clone, Copy, Debug, PartialEq, Eq, Structural)]
pub struct CapacityExceeded {
    /// The capacity of the list that was full.
    pub capacity: usize,
}

/// A list that holds at most `capacity` items, in the order they were added.
pub struct BoundedList<T> {
    items: Vec<T>,
    capacity: usize,
}

impl<T> View for BoundedList<T> {
    type V = Seq<T>;

    closed spec fn view(&self) -> Seq<T> {
        self.items@
    }
}

impl<T> BoundedList<T> {
    /// The list holds no more items than its capacity.
    pub closed spec fn well_formed(&self) -> bool {
        self.items.len() <= self.capacity
    }

    /// The most items the list can hold.
    pub closed spec fn spec_capacity(&self) -> usize {
        self.capacity
    }

    /// An empty list that will hold at most `capacity` items.
    pub fn new(capacity: usize) -> (r: BoundedList<T>)
        ensures
            r.well_formed(),
            r@ == Seq::<T>::empty(),
            r.spec_capacity() == capacity,
    {
        BoundedList { items: Vec::new(), capacity }
    }

    /// Appends `item` if the list has room; otherwise leaves the list as it was and
    /// reports that it is full.
    pub fn push(&mut self, item: T) -> (r: Result<(), CapacityExceeded>)
        requires
            old(self).well_formed(),
        ensures
            final(self).well_formed(),
            final(self).spec_capacity() == old(self).spec_capacity(),
            old(self)@.len() < old(self).spec_capacity() ==> r is Ok && final(self)@ == old(self)@.push(item),
            old(self)@.len() >= old(self).spec_capacity() ==> r == Err::<(), CapacityExceeded>(
                CapacityExceeded { capacity: old(self).spec_capacity() },
            ) && final(self)@ == old(self)@,
    {
        if self.items.len() < self.capacity {
            self.items.push(item);
            Ok(())
        } else {
            Err(CapacityExceeded { capacity: self.capacity })
        }
    }

    /// The number of items.
    pub fn len(&self) -> (r: usize)
        ensures
            r == self@.len(),
    {
        self.items.len()
    }

    /// The most items the list can hold.
    pub fn capacity(&self) -> (r: usize)
        ensures
            r == self.spec_capacity(),
    {
        self.capacity
    }

    /// The items, in the order they were added.
    pub fn as_slice(&self) -> (r: &[T])
        ensures
            r@ == self@,
    {
        self.items.as_slice()
    }
}

/// The spheres and lights of a scene. `S` is the sphere type and `L` the light type.
pub struct Scene<S, L> {
    spheres: BoundedList<S>,
    lights: BoundedList<L>,
}

impl<S, L> Scene<S, L> {
    /// The spheres, in the order they were added.
    pub closed spec fn spec_spheres(&self) -> Seq<S> {
        self.spheres@
    }

    /// The lights, in the order they were added.
    pub closed spec fn spec_lights(&self) -> Seq<L> {
        self.lights@
    }

    /// The scene holds at most `MAX_SPHERES` spheres and `MAX_LIGHTS` lights.
    pub closed spec fn well_formed(&self) -> bool {
        &&& self.spheres.well_formed()
        &&& self.lights.well_formed()
        &&& self.spheres.spec_capacity() == MAX_SPHERES
        &&& self.lights.spec_capacity() == MAX_LIGHTS
    }

    /// A well-formed scene holds at most `MAX_SPHERES` spheres and `MAX_LIGHTS` lights.
    pub proof fn lemma_bounded(&self)
        requires
            self.well_formed(),
        ensures
            self.spec_spheres().len() <= MAX_SPHERES,
            self.spec_lights().len() <= MAX_LIGHTS,
    {
    }

    /// An empty scene.
    pub fn new() -> (r: Scene<S, L>)
        ensures
            r.well_formed(),
            r.spec_spheres() == Seq::<S>::empty(),
            r.spec_lights() == Seq::<L>::empty(),
    {
        Scene { spheres: BoundedList::new(MAX_SPHERES), lights: BoundedList::new(MAX_LIGHTS) }
    }

    /// Adds a sphere, unless the scene already holds `MAX_SPHERES` of them.
    pub fn add_sphere(&mut self, sphere: S) -> (r: Result<(), CapacityExceeded>)
        requires
            old(self).well_formed(),
        ensures
            final(self).well_formed(),
            final(self).spec_lights() == old(self).spec_lights(),
            old(self).spec_spheres().len() < MAX_SPHERES ==> r is Ok && final(self).spec_spheres()
                == old(self).spec_spheres().push(sphere),
            old(self).spec_spheres().len() >= MAX_SPHERES ==> r == Err::<(), CapacityExceeded>(
                CapacityExceeded { capacity: MAX_SPHERES },
            ) && final(self).spec_spheres() == old(self).spec_spheres(),
    {
        self.spheres.push(sphere)
    }

    /// Adds a light, unless the scene already holds `MAX_LIGHTS` of them.
    pub fn add_light(&mut self, light: L) -> (r: Result<(), CapacityExceeded>)
        requires
            old(self).well_formed(),
        ensures
            final(self).well_formed(),
            final(self).spec_spheres() == old(self).spec_spheres(),
            old(self).spec_lights().len() < MAX_LIGHTS ==> r is Ok && final(self).spec_lights()
                == old(self).spec_lights().push(light),
            old(self).spec_lights().len() >= MAX_LIGHTS ==> r == Err::<(), CapacityExceeded>(
                CapacityExceeded { capacity: MAX_LIGHTS },
            ) && final(self).spec_lights() == old(self).spec_lights(),
    {
        self.lights.push(light)
    }

    /// The spheres, in the order they were added.
    pub fn spheres(&self) -> (r: &[S])
        ensures
            r@ == self.spec_spheres(),
    {
        self.spheres.as_slice()
    }

    /// The lights, in the order they were added.
    pub fn lights(&self) -> (r: &[L])
        ensures
            r@ == self.spec_lights(),
    {
        self.lights.as_slice()
    }
}

} // verus!
