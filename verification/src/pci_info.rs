use crate::enumerators::PciEnumerator;
use crate::pci_property_result::PropertyResult;
use crate::{PciDevice, PciDeviceEnumerationError, PciInfoError, PciLocation};
use vstd::prelude::*;

verus! {

/// Holds the result of an enumeration of PCI devices: the devices that were
/// found, and the errors that kept others from being found, in the order in
/// which the enumeration met them.
///
/// The `PciInfo` can be iterated on, either directly or calling the
/// `iter()` or `into_iter()` methods.
pub struct PciInfo {
    pub results: Vec<Result<PciDevice, PciDeviceEnumerationError>>,
}

/// Whether the entry is a device whose location is present and is
/// `location`.
pub open spec fn is_device_at(
    entry: Result<PciDevice, PciDeviceEnumerationError>,
    location: PciLocation,
) -> bool {
    entry matches Ok(d) && d.properties.location@ == PropertyResult::<PciLocation>::present(
        location,
    )
}

/// The index of the first device at `location` among the results, or their
/// number where there is none.
pub open spec fn first_device_at(
    results: Seq<Result<PciDevice, PciDeviceEnumerationError>>,
    location: PciLocation,
) -> int
    decreases results.len(),
{
    if results.len() == 0 || is_device_at(results[0], location) {
        0
    } else {
        1 + first_device_at(results.skip(1), location)
    }
}

/// The first device at a location lies among the results or at their end,
/// it is a device at the location if it lies among them, and no result
/// before it is one.
pub proof fn lemma_first_device_at(
    results: Seq<Result<PciDevice, PciDeviceEnumerationError>>,
    location: PciLocation,
)
    ensures
        0 <= first_device_at(results, location) <= results.len(),
        first_device_at(results, location) < results.len() ==> is_device_at(
            results[first_device_at(results, location)],
            location,
        ),
        forall|j: int|
            0 <= j < first_device_at(results, location) ==> !is_device_at(
                #[trigger] results[j],
                location,
            ),
    decreases results.len(),
{
    if results.len() > 0 && !is_device_at(results[0], location) {
        lemma_first_device_at(results.skip(1), location);
        assert forall|j: int| 0 <= j < first_device_at(results, location) implies !is_device_at(
            #[trigger] results[j],
            location,
        ) by {
            if j > 0 {
                assert(results.skip(1)[j - 1] == results[j]);
            }
        }
    }
}

impl PciInfo {
    /// An enumeration that found nothing.
    pub fn empty() -> (r: Self)
        ensures
            r.results@.len() == 0,
    {
        Self { results: Vec::new() }
    }

    /// Adds a device at the end.
    pub fn push_device(&mut self, dev: PciDevice)
        ensures
            final(self).results@ == old(self).results@.push(Ok(dev)),
    {
        self.results.push(Ok(dev));
    }

    /// Adds an error at the end.
    pub fn push_error(&mut self, err: PciDeviceEnumerationError)
        ensures
            final(self).results@ == old(self).results@.push(Err(err)),
    {
        self.results.push(Err(err));
    }

    /// Creates a new `PciInfo` using the default `PciEnumerator` of the
    /// platform, as the caller has chosen it. Where the platform has none,
    /// the error of the choice is handed on, and else what comes back is
    /// what the enumerator gave.
    pub fn enumerate_pci<T: PciEnumerator>(default_enumerator: Result<T, PciInfoError>) -> (r:
        Result<Self, PciInfoError>)
        ensures
            match default_enumerator {
                Ok(enumerator) => call_ensures(T::enumerate_pci, (enumerator,), r),
                Err(e) => r is Err && r->Err_0@ == e@,
            },
    {
        match default_enumerator {
            Ok(enumerator) => Self::enumerate_pci_with_enumerator(enumerator),
            Err(e) => Err(e),
        }
    }

    /// Creates a new `PciInfo` using the specified `PciEnumerator`: what
    /// comes back is what the enumerator gave.
    pub fn enumerate_pci_with_enumerator<T: PciEnumerator>(enumerator: T) -> (r: Result<
        Self,
        PciInfoError,
    >)
        ensures
            call_ensures(T::enumerate_pci, (enumerator,), r),
    {
        enumerator.enumerate_pci()
    }

    /// Returns an iterator to the results references
    pub fn iter(&self) -> (r: PciInfoRefIterator<'_>)
        ensures
            r.results() == self.results@,
            r.handed_out() == 0,
    {
        PciInfoRefIterator { pci_info: self, index: 0 }
    }

    /// The index of the first device whose location is present and is
    /// `location`.
    fn find_device_index(&self, location: PciLocation) -> (r: usize)
        ensures
            r == first_device_at(self.results@, location),
            r <= self.results@.len(),
    {
        let ghost all = self.results@;
        let mut i: usize = 0;
        assert(all.skip(0) == all);
        while i < self.results.len()
            invariant
                i <= self.results.len(),
                all == self.results@,
                first_device_at(all, location) == i + first_device_at(all.skip(i as int), location),
            decreases self.results.len() - i,
        {
            let found = match &self.results[i] {
                Ok(d) => match d.properties.location.as_option() {
                    Some(l) => *l == location,
                    None => false,
                },
                Err(_) => false,
            };
            if found {
                return i;
            }
            assert(all.skip(i as int).skip(1) == all.skip(i + 1));
            i += 1;
        }
        i
    }

    /// The first device whose location is present and is `location`, to be
    /// changed in place. The other results stay as they are.
    pub fn find_device_mut(&mut self, location: PciLocation) -> (r: Option<&mut PciDevice>)
        ensures
            ({
                let at = first_device_at(old(self).results@, location);
                match r {
                    Some(d) => {
                        &&& at < old(self).results@.len()
                        &&& old(self).results@[at] == Ok::<PciDevice, PciDeviceEnumerationError>(*d)
                        &&& final(self).results@ == old(self).results@.update(
                            at,
                            Ok(*final(d)),
                        )
                    },
                    None => at == old(self).results@.len() && *final(self) == *old(self),
                }
            }),
    {
        let at = self.find_device_index(location);
        proof {
            lemma_first_device_at(self.results@, location);
        }
        if at < self.results.len() {
            match &mut self.results[at] {
                Ok(d) => Some(d),
                Err(_) => None,
            }
        } else {
            None
        }
    }

    /// Hands every device to `mutator`, from the first to the last, to be
    /// changed in place: every device becomes what a call of `mutator` makes
    /// of it, that is, the device before and after are what the contract of
    /// `mutator` allows for one call. The errors stay as they are.
    pub fn mutate_devices<F: FnMut(&mut PciDevice)>(&mut self, mut mutator: F)
        requires
            forall|d: &mut PciDevice| call_requires(mutator, (d,)),
        ensures
            final(self).results@.len() == old(self).results@.len(),
            forall|i: int|
                0 <= i < old(self).results@.len() ==> match (#[trigger] old(self).results@[i]) {
                    Ok(before) => {
                        &&& final(self).results@[i] is Ok
                        &&& exists|d: &mut PciDevice|
                            *d == before && *final(d) == final(self).results@[i]->Ok_0
                                && #[trigger] call_ensures(mutator, (d,), ())
                    },
                    Err(_) => final(self).results@[i] == old(self).results@[i],
                },
    {
        let ghost given = mutator;
        let mut i: usize = 0;
        while i < self.results.len()
            invariant
                i <= self.results@.len(),
                self.results@.len() == old(self).results@.len(),
                mutator == given,
                forall|d: &mut PciDevice| call_requires(mutator, (d,)),
                forall|k: int|
                    0 <= k < i ==> match (#[trigger] old(self).results@[k]) {
                        Ok(before) => {
                            &&& self.results@[k] is Ok
                            &&& exists|d: &mut PciDevice|
                                *d == before && *final(d) == self.results@[k]->Ok_0
                                    && #[trigger] call_ensures(mutator, (d,), ())
                        },
                        Err(_) => self.results@[k] == old(self).results@[k],
                    },
                forall|k: int|
                    i <= k < self.results@.len() ==> self.results@[k] == old(self).results@[k],
            decreases self.results.len() - i,
        {
            match &mut self.results[i] {
                Ok(d) => mutator(d),
                Err(_) => {},
            }
            i += 1;
        }
    }
}

impl<'a> IntoIterator for &'a PciInfo {
    type Item = Result<&'a PciDevice, &'a PciDeviceEnumerationError>;

    type IntoIter = PciInfoRefIterator<'a>;

    /// Returns an iterator to the results references
    fn into_iter(self) -> (r: Self::IntoIter)
        ensures
            r.results() == self.results@,
            r.handed_out() == 0,
    {
        self.iter()
    }
}

impl IntoIterator for PciInfo {
    type Item = Result<PciDevice, PciDeviceEnumerationError>;

    type IntoIter = std::vec::IntoIter<Result<PciDevice, PciDeviceEnumerationError>>;

    /// Returns an iterator to the results, consuming the `PciInfo` in
    /// the process
    fn into_iter(self) -> (r: Self::IntoIter)
        ensures
            r == self.results.into_iter(),
    {
        self.results.into_iter()
    }
}

/// A walk through the results of an enumeration, from the first to the
/// last.
pub struct PciInfoRefIterator<'a> {
    pci_info: &'a PciInfo,
    index: usize,
}

/// A result as it is handed out by reference.
pub open spec fn by_reference<'a>(
    result: Result<PciDevice, PciDeviceEnumerationError>,
) -> Result<&'a PciDevice, &'a PciDeviceEnumerationError> {
    match result {
        Ok(d) => Ok(&d),
        Err(e) => Err(&e),
    }
}

impl<'a> PciInfoRefIterator<'a> {
    #[verifier::type_invariant]
    spec fn in_bounds(self) -> bool {
        self.index <= self.pci_info.results@.len()
    }

    /// The results that are walked through.
    pub closed spec fn results(&self) -> Seq<Result<PciDevice, PciDeviceEnumerationError>> {
        self.pci_info.results@
    }

    /// How many results have been handed out.
    pub closed spec fn handed_out(&self) -> nat {
        self.index as nat
    }
}

impl<'a> Iterator for PciInfoRefIterator<'a> {
    type Item = Result<&'a PciDevice, &'a PciDeviceEnumerationError>;

    /// Hands out the next result, or nothing once all have been handed
    /// out.
    fn next(&mut self) -> (r: Option<Self::Item>)
        ensures
            final(self).results() == old(self).results(),
            match r {
                Some(item) => {
                    &&& old(self).handed_out() < old(self).results().len()
                    &&& final(self).handed_out() == old(self).handed_out() + 1
                    &&& item == by_reference(old(self).results()[old(self).handed_out() as int])
                },
                None => {
                    &&& old(self).handed_out() >= old(self).results().len()
                    &&& final(self).handed_out() == old(self).handed_out()
                },
            },
    {
        proof {
            use_type_invariant(&*self);
        }
        if self.index >= self.pci_info.results.len() {
            None
        } else {
            let item = match &self.pci_info.results[self.index] {
                Ok(v) => Ok(v),
                Err(e) => Err(e),
            };
            self.index += 1;
            Some(item)
        }
    }
}

impl<'a> vstd::std_specs::iter::IteratorSpecImpl for PciInfoRefIterator<'a> {
    open spec fn obeys_prophetic_iter_laws(&self) -> bool {
        true
    }

    closed spec fn remaining(&self) -> Seq<Self::Item> {
        self.pci_info.results@.subrange(
            self.index as int,
            self.pci_info.results@.len() as int,
        ).map_values(|r: Result<PciDevice, PciDeviceEnumerationError>| by_reference(r))
    }

    open spec fn will_return_none(&self) -> bool {
        true
    }

    closed spec fn decrease(&self) -> Option<nat> {
        Some((self.pci_info.results@.len() - self.index) as nat)
    }

    open spec fn initial_value_relation(&self, init: &Self) -> bool {
        self.results() == init.results()
    }

    closed spec fn peek(&self, index: int) -> Option<Self::Item> {
        if 0 <= index && self.index + index < self.pci_info.results@.len() {
            Some(by_reference(self.pci_info.results@[self.index + index]))
        } else {
            None
        }
    }
}

} // verus!
