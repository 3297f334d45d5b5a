use crate::pci_enums::{PciDeviceClass, PciDeviceSubclass};
use crate::pci_headers::{PciCommonHeader, PciSpecializedHeader};
use crate::pci_property_result::{property_state_text, PropertyResult};
use crate::text::{
    debug_text_of_text, decimal_text, push_decimal, push_upper_hex, show_text, upper_hex_text,
    write_text,
};
use crate::{PciInfoError, PciInfoPropertyError, PciInfoPropertyErrorView, PciLocation};
use vstd::prelude::*;

verus! {

/// A struct representing the data of a PCI device as discovered through
/// the OS APIs by the enumerator in use. An enumerator is not required
/// to fill all the fields of a `PciDevice` object. As such most members
/// are optional and only the `vendor_id()`  and `device_id()` are
/// required to be valid. Check the documentation of the enumerator in
/// use to see what values are expected to be filled.
pub struct PciDevice {
    /// The id of the vendor of the device.
    pub vendor_id: u16,
    /// The id of the device.
    pub device_id: u16,
    /// The properties of the device, each present, unsupported or failed
    /// on its own.
    pub properties: PciDeviceProperties,
}

/// The properties of a device beyond its vendor and device ids.
pub struct PciDeviceProperties {
    pub location: PropertyResult<PciLocation>,
    pub subsystem_vendor_id: PropertyResult<Option<u16>>,
    pub subsystem_device_id: PropertyResult<Option<u16>>,
    pub revision: PropertyResult<u8>,
    pub device_class: PropertyResult<u8>,
    pub device_subclass: PropertyResult<u8>,
    pub device_iface: PropertyResult<u8>,
    pub os_irq: PropertyResult<Option<u8>>,
    pub os_driver: PropertyResult<Option<String>>,
    pub pci_common_header: PropertyResult<PciCommonHeader>,
    pub pci_specialized_header: PropertyResult<PciSpecializedHeader>,
}

impl PciDeviceProperties {
    /// Whether every property is unsupported.
    pub open spec fn all_unsupported(&self) -> bool {
        &&& self.location@ == PropertyResult::<PciLocation>::unsupported()
        &&& self.subsystem_vendor_id@ == PropertyResult::<Option<u16>>::unsupported()
        &&& self.subsystem_device_id@ == PropertyResult::<Option<u16>>::unsupported()
        &&& self.revision@ == PropertyResult::<u8>::unsupported()
        &&& self.device_class@ == PropertyResult::<u8>::unsupported()
        &&& self.device_subclass@ == PropertyResult::<u8>::unsupported()
        &&& self.device_iface@ == PropertyResult::<u8>::unsupported()
        &&& self.os_irq@ == PropertyResult::<Option<u8>>::unsupported()
        &&& self.os_driver@ == PropertyResult::<Option<String>>::unsupported()
        &&& self.pci_common_header@ == PropertyResult::<PciCommonHeader>::unsupported()
        &&& self.pci_specialized_header@ == PropertyResult::<PciSpecializedHeader>::unsupported()
    }
}

impl Default for PciDeviceProperties {
    /// The properties of a device of which nothing is known.
    fn default() -> (r: Self)
        ensures
            r.all_unsupported(),
    {
        PciDeviceProperties {
            location: PropertyResult::default(),
            subsystem_vendor_id: PropertyResult::default(),
            subsystem_device_id: PropertyResult::default(),
            revision: PropertyResult::default(),
            device_class: PropertyResult::default(),
            device_subclass: PropertyResult::default(),
            device_iface: PropertyResult::default(),
            os_irq: PropertyResult::default(),
            os_driver: PropertyResult::default(),
            pci_common_header: PropertyResult::default(),
            pci_specialized_header: PropertyResult::default(),
        }
    }
}

/// The subsystem vendor id that a specialized header carries. A header for
/// a PCI-to-PCI bridge carries none, and the property is then unsupported.
pub open spec fn subsystem_vendor_of(header: PciSpecializedHeader) -> Result<
    Option<u16>,
    PciInfoPropertyErrorView,
> {
    match header {
        PciSpecializedHeader::GenericDevice(h) => Ok(Some(h.subsystem_vendor_id)),
        PciSpecializedHeader::PciToCardbusBridge(h) => Ok(Some(h.subsystem_vendor_id)),
        PciSpecializedHeader::PciToPciBridge(_) => Err(PciInfoPropertyErrorView::Unsupported),
    }
}

/// The subsystem device id that a specialized header carries. A header for
/// a PCI-to-PCI bridge carries none, and the property is then unsupported.
pub open spec fn subsystem_device_of(header: PciSpecializedHeader) -> Result<
    Option<u16>,
    PciInfoPropertyErrorView,
> {
    match header {
        PciSpecializedHeader::GenericDevice(h) => Ok(Some(h.subsystem_device_id)),
        PciSpecializedHeader::PciToCardbusBridge(h) => Ok(Some(h.subsystem_device_id)),
        PciSpecializedHeader::PciToPciBridge(_) => Err(PciInfoPropertyErrorView::Unsupported),
    }
}

impl PciDevice {
    /// Whether the device holds what the common header says of it: the two
    /// ids, and as present properties the revision, the class, subclass and
    /// interface codes and the header itself.
    pub open spec fn holds_common_header(&self, header: PciCommonHeader) -> bool {
        &&& self.vendor_id == header.vendor_id
        &&& self.device_id == header.device_id
        &&& self.properties.revision@ == PropertyResult::<u8>::present(header.revision_id)
        &&& self.properties.device_class@ == PropertyResult::<u8>::present(header.class_code)
        &&& self.properties.device_subclass@ == PropertyResult::<u8>::present(
            header.subclass_code,
        )
        &&& self.properties.device_iface@ == PropertyResult::<u8>::present(
            header.prog_iface_code,
        )
        &&& self.properties.pci_common_header@ == PropertyResult::<PciCommonHeader>::present(
            header,
        )
        &&& self.properties.location@ == PropertyResult::<PciLocation>::unsupported()
        &&& self.properties.os_irq@ == PropertyResult::<Option<u8>>::unsupported()
        &&& self.properties.os_driver@ == PropertyResult::<Option<String>>::unsupported()
    }

    /// Whether the three properties that come from the specialized header
    /// hold what `specialized` says: the header and the subsystem ids it
    /// carries, or the reason why there is no header.
    pub open spec fn holds_specialized_header(
        &self,
        specialized: Result<PciSpecializedHeader, PciInfoPropertyErrorView>,
    ) -> bool {
        match specialized {
            Ok(h) => {
                &&& self.properties.pci_specialized_header@ == PropertyResult::<
                    PciSpecializedHeader,
                >::present(h)
                &&& self.properties.subsystem_vendor_id@ == subsystem_vendor_of(h)
                &&& self.properties.subsystem_device_id@ == subsystem_device_of(h)
            },
            Err(e) => {
                &&& self.properties.pci_specialized_header@ == Err::<
                    PciSpecializedHeader,
                    PciInfoPropertyErrorView,
                >(e)
                &&& self.properties.subsystem_vendor_id@ == Err::<
                    Option<u16>,
                    PciInfoPropertyErrorView,
                >(e)
                &&& self.properties.subsystem_device_id@ == Err::<
                    Option<u16>,
                    PciInfoPropertyErrorView,
                >(e)
            },
        }
    }

    /// A device with the given ids and properties.
    pub fn new(vendor_id: u16, device_id: u16, properties: PciDeviceProperties) -> (r: Self)
        ensures
            r.vendor_id == vendor_id,
            r.device_id == device_id,
            r.properties == properties,
    {
        Self { vendor_id, device_id, properties }
    }

    /// The three properties that come from a specialized header that was
    /// read: the subsystem device id, the subsystem vendor id and the
    /// header.
    fn specialized_properties(h: PciSpecializedHeader) -> (r: (
        PropertyResult<Option<u16>>,
        PropertyResult<Option<u16>>,
        PropertyResult<PciSpecializedHeader>,
    ))
        ensures
            r.0@ == subsystem_device_of(h),
            r.1@ == subsystem_vendor_of(h),
            r.2@ == PropertyResult::<PciSpecializedHeader>::present(h),
    {
        match h {
            PciSpecializedHeader::GenericDevice(g) => (
                PropertyResult::with_val(Some(g.subsystem_device_id)),
                PropertyResult::with_val(Some(g.subsystem_vendor_id)),
                PropertyResult::with_val(PciSpecializedHeader::GenericDevice(g)),
            ),
            PciSpecializedHeader::PciToCardbusBridge(c) => (
                PropertyResult::with_val(Some(c.subsystem_device_id)),
                PropertyResult::with_val(Some(c.subsystem_vendor_id)),
                PropertyResult::with_val(PciSpecializedHeader::PciToCardbusBridge(c)),
            ),
            PciSpecializedHeader::PciToPciBridge(b) => (
                PropertyResult::default(),
                PropertyResult::default(),
                PropertyResult::with_val(PciSpecializedHeader::PciToPciBridge(b)),
            ),
        }
    }

    /// The device that owns the three properties of a specialized header
    /// and whatever the common header says.
    fn from_header_parts(
        header: PciCommonHeader,
        subsystem_device_id: PropertyResult<Option<u16>>,
        subsystem_vendor_id: PropertyResult<Option<u16>>,
        pci_specialized_header: PropertyResult<PciSpecializedHeader>,
    ) -> (r: Self)
        ensures
            r.holds_common_header(header),
            r.properties.subsystem_device_id == subsystem_device_id,
            r.properties.subsystem_vendor_id == subsystem_vendor_id,
            r.properties.pci_specialized_header == pci_specialized_header,
    {
        Self {
            vendor_id: header.vendor_id,
            device_id: header.device_id,
            properties: PciDeviceProperties {
                location: PropertyResult::default(),
                subsystem_vendor_id,
                subsystem_device_id,
                revision: PropertyResult::with_val(header.revision_id),
                device_class: PropertyResult::with_val(header.class_code),
                device_subclass: PropertyResult::with_val(header.subclass_code),
                device_iface: PropertyResult::with_val(header.prog_iface_code),
                os_irq: PropertyResult::default(),
                os_driver: PropertyResult::default(),
                pci_common_header: PropertyResult::with_val(header),
                pci_specialized_header,
            },
        }
    }

    /// The device that a common header describes, with the specialized
    /// header where one was read. Without one, the properties that come
    /// from it are unsupported.
    pub fn from_pci_header_set(
        header: PciCommonHeader,
        specialized: Option<PciSpecializedHeader>,
    ) -> (r: Self)
        ensures
            r.holds_common_header(header),
            r.holds_specialized_header(
                match specialized {
                    Some(h) => Ok(h),
                    None => Err(PciInfoPropertyErrorView::Unsupported),
                },
            ),
    {
        let (subsystem_device_id, subsystem_vendor_id, pci_specialized_header) = match specialized {
            Some(h) => Self::specialized_properties(h),
            None => (
                PropertyResult::default(),
                PropertyResult::default(),
                PropertyResult::default(),
            ),
        };
        Self::from_header_parts(
            header,
            subsystem_device_id,
            subsystem_vendor_id,
            pci_specialized_header,
        )
    }

    /// The device that a common header describes, with the outcome of
    /// reading the specialized header. Where that read failed, the
    /// properties that come from it fail with its error, and what the
    /// common header says stays present.
    pub fn from_pci_header_result(
        header: PciCommonHeader,
        specialized: Result<PciSpecializedHeader, PciInfoError>,
    ) -> (r: Self)
        ensures
            r.holds_common_header(header),
            r.holds_specialized_header(
                match specialized {
                    Ok(h) => Ok(h),
                    Err(e) => Err(PciInfoPropertyErrorView::Error(e@)),
                },
            ),
    {
        let (subsystem_device_id, subsystem_vendor_id, pci_specialized_header) = match specialized {
            Ok(h) => Self::specialized_properties(h),
            Err(e) => (
                PropertyResult::with_err(e.clone()),
                PropertyResult::with_err(e.clone()),
                PropertyResult::with_err(e),
            ),
        };
        Self::from_header_parts(
            header,
            subsystem_device_id,
            subsystem_vendor_id,
            pci_specialized_header,
        )
    }

    /// Returns the id of the vendor of this device. The vendor is usually
    /// the provider of the chipset or technology upon which the device is
    /// based.
    pub fn vendor_id(&self) -> (r: u16)
        ensures
            r == self.vendor_id,
    {
        self.vendor_id
    }

    /// Returns the device id of the device.
    pub fn device_id(&self) -> (r: u16)
        ensures
            r == self.device_id,
    {
        self.device_id
    }

    /// Returns the location of the device on the PCI bus (in terms of bus,
    /// device and function), or the reason why it is not known.
    pub fn location(&self) -> (r: Result<PciLocation, &PciInfoPropertyError>)
        ensures
            match r {
                Ok(v) => self.properties.location@ == Ok::<PciLocation, PciInfoPropertyErrorView>(
                    v,
                ),
                Err(e) => self.properties.location@ == Err::<PciLocation, PciInfoPropertyErrorView>(
                    e@,
                ),
            },
    {
        self.properties.location.as_result()
    }

    /// Returns the vendor id of the manufacturer of this device. The vendor is usually
    /// the provider of the actual card/device.
    pub fn subsystem_vendor_id(&self) -> (r: Result<Option<u16>, &PciInfoPropertyError>)
        ensures
            match r {
                Ok(v) => self.properties.subsystem_vendor_id@ == Ok::<
                    Option<u16>,
                    PciInfoPropertyErrorView,
                >(v),
                Err(e) => self.properties.subsystem_vendor_id@ == Err::<
                    Option<u16>,
                    PciInfoPropertyErrorView,
                >(e@),
            },
    {
        self.properties.subsystem_vendor_id.as_result()
    }

    /// Returns the `subsystem_device_id`. See the documentation for
    /// `subsystem_vendor_id` for the difference between normal ids and
    /// subsystem ids.
    pub fn subsystem_device_id(&self) -> (r: Result<Option<u16>, &PciInfoPropertyError>)
        ensures
            match r {
                Ok(v) => self.properties.subsystem_device_id@ == Ok::<
                    Option<u16>,
                    PciInfoPropertyErrorView,
                >(v),
                Err(e) => self.properties.subsystem_device_id@ == Err::<
                    Option<u16>,
                    PciInfoPropertyErrorView,
                >(e@),
            },
    {
        self.properties.subsystem_device_id.as_result()
    }

    /// Returns the revision of the device.
    pub fn revision(&self) -> (r: Result<u8, &PciInfoPropertyError>)
        ensures
            match r {
                Ok(v) => self.properties.revision@ == Ok::<u8, PciInfoPropertyErrorView>(v),
                Err(e) => self.properties.revision@ == Err::<u8, PciInfoPropertyErrorView>(e@),
            },
    {
        self.properties.revision.as_result()
    }

    /// Returns the code of the PCI device class.
    pub fn device_class_code(&self) -> (r: Result<u8, &PciInfoPropertyError>)
        ensures
            match r {
                Ok(v) => self.properties.device_class@ == Ok::<u8, PciInfoPropertyErrorView>(v),
                Err(e) => self.properties.device_class@ == Err::<u8, PciInfoPropertyErrorView>(e@),
            },
    {
        self.properties.device_class.as_result()
    }

    /// Returns the code of the PCI device subclass.
    pub fn device_subclass_code(&self) -> (r: Result<u8, &PciInfoPropertyError>)
        ensures
            match r {
                Ok(v) => self.properties.device_subclass@ == Ok::<u8, PciInfoPropertyErrorView>(v),
                Err(e) => self.properties.device_subclass@ == Err::<u8, PciInfoPropertyErrorView>(
                    e@,
                ),
            },
    {
        self.properties.device_subclass.as_result()
    }

    /// Returns the code of the PCI interface function.
    pub fn device_iface_code(&self) -> (r: Result<u8, &PciInfoPropertyError>)
        ensures
            match r {
                Ok(v) => self.properties.device_iface@ == Ok::<u8, PciInfoPropertyErrorView>(v),
                Err(e) => self.properties.device_iface@ == Err::<u8, PciInfoPropertyErrorView>(e@),
            },
    {
        self.properties.device_iface.as_result()
    }

    /// Returns the PCI device class of this device, or the reason why the
    /// class code is not known.
    pub fn device_class(&self) -> (r: Result<PciDeviceClass, &PciInfoPropertyError>)
        ensures
            match r {
                Ok(v) => v.is_canonical() && self.properties.device_class@ == Ok::<
                    u8,
                    PciInfoPropertyErrorView,
                >(v.code()),
                Err(e) => self.properties.device_class@ == Err::<u8, PciInfoPropertyErrorView>(e@),
            },
    {
        match self.device_class_code() {
            Ok(c) => Ok(PciDeviceClass::from_code(c)),
            Err(e) => Err(e),
        }
    }

    /// Returns the PCI device subclass of this device, or the reason why
    /// the first of the class code and the subclass code that is not known
    /// is not.
    pub fn device_subclass(&self) -> (r: Result<PciDeviceSubclass, &PciInfoPropertyError>)
        ensures
            match r {
                Ok(v) => {
                    &&& self.properties.device_class@ is Ok
                    &&& self.properties.device_subclass@ is Ok
                    &&& v.is_canonical()
                    &&& v.codes() == (
                        self.properties.device_class@->Ok_0,
                        self.properties.device_subclass@->Ok_0,
                    )
                },
                Err(e) => if self.properties.device_class@ is Err {
                    self.properties.device_class@ == Err::<u8, PciInfoPropertyErrorView>(e@)
                } else {
                    self.properties.device_subclass@ == Err::<u8, PciInfoPropertyErrorView>(e@)
                },
            },
    {
        let c = match self.device_class_code() {
            Ok(c) => c,
            Err(e) => {
                return Err(e);
            },
        };
        let s = match self.device_subclass_code() {
            Ok(s) => s,
            Err(e) => {
                return Err(e);
            },
        };
        Ok(PciDeviceSubclass::from_codes(c, s))
    }

    /// Returns the IRQ that the OS has associated to the device.
    pub fn os_irq(&self) -> (r: Result<Option<u8>, &PciInfoPropertyError>)
        ensures
            match r {
                Ok(v) => self.properties.os_irq@ == Ok::<Option<u8>, PciInfoPropertyErrorView>(v),
                Err(e) => self.properties.os_irq@ == Err::<Option<u8>, PciInfoPropertyErrorView>(
                    e@,
                ),
            },
    {
        self.properties.os_irq.as_result()
    }

    /// Returns the name of the driver that handles the device in the OS.
    pub fn os_driver(&self) -> (r: Result<&Option<String>, &PciInfoPropertyError>)
        ensures
            match r {
                Ok(v) => self.properties.os_driver@ == Ok::<
                    Option<String>,
                    PciInfoPropertyErrorView,
                >(*v),
                Err(e) => self.properties.os_driver@ == Err::<
                    Option<String>,
                    PciInfoPropertyErrorView,
                >(e@),
            },
    {
        self.properties.os_driver.as_result_ref()
    }

    /// Returns the common part of the PCI Configuration space header for this device.
    pub fn pci_common_header(&self) -> (r: Result<&PciCommonHeader, &PciInfoPropertyError>)
        ensures
            match r {
                Ok(v) => self.properties.pci_common_header@ == Ok::<
                    PciCommonHeader,
                    PciInfoPropertyErrorView,
                >(*v),
                Err(e) => self.properties.pci_common_header@ == Err::<
                    PciCommonHeader,
                    PciInfoPropertyErrorView,
                >(e@),
            },
    {
        self.properties.pci_common_header.as_result_ref()
    }

    /// Returns the specialized part of the PCI Configuration space header for this device.
    pub fn pci_specialized_header(&self) -> (r: Result<
        &PciSpecializedHeader,
        &PciInfoPropertyError,
    >)
        ensures
            match r {
                Ok(v) => self.properties.pci_specialized_header@ == Ok::<
                    PciSpecializedHeader,
                    PciInfoPropertyErrorView,
                >(*v),
                Err(e) => self.properties.pci_specialized_header@ == Err::<
                    PciSpecializedHeader,
                    PciInfoPropertyErrorView,
                >(e@),
            },
    {
        self.properties.pci_specialized_header.as_result_ref()
    }
}

/// The text of the name of a driver, as `Debug` shows it, or of none.
pub open spec fn driver_text(name: Option<String>) -> Seq<char> {
    match name {
        Some(s) => "Some("@ + debug_text_of_text(s@) + ")"@,
        None => "None"@,
    }
}

/// The text of an interrupt line, or of none.
pub open spec fn irq_text(irq: Option<u8>) -> Seq<char> {
    match irq {
        Some(n) => "Some("@ + decimal_text(n as nat) + ")"@,
        None => "None"@,
    }
}

impl PciDevice {
    /// The part of the text of the device that names its class: nothing
    /// where the class code is not present, and else the name of the
    /// subclass, or of the class where the subclass code is not present,
    /// in round brackets after a blank.
    pub open spec fn class_name(&self) -> Seq<char> {
        match self.properties.device_class@ {
            Err(_) => Seq::empty(),
            Ok(c) => " ("@ + (match self.properties.device_subclass@ {
                Ok(s) => PciDeviceSubclass::of_codes(c, s).name(),
                Err(_) => PciDeviceClass::of_code(c).name(),
            }) + seq![')'],
        }
    }

    /// The part of the text of the device that shows its location and its
    /// two ids.
    pub open spec fn ids_text(&self) -> Seq<char> {
        " "@ + property_state_text(self.properties.location@) + " vendor: "@ + upper_hex_text(
            self.vendor_id as nat,
            4,
        ) + " device: "@ + upper_hex_text(self.device_id as nat, 4)
    }

    /// The part of the text of the device that shows its revision and the
    /// codes of its class, its subclass and its interface.
    pub open spec fn codes_text(&self) -> Seq<char> {
        " revision: "@ + property_state_text(self.properties.revision@) + " class: "@
            + property_state_text(self.properties.device_class@) + " sub-class: "@
            + property_state_text(self.properties.device_subclass@) + " iface-func: "@
            + property_state_text(self.properties.device_iface@)
    }

    /// The part of the text of the device that shows its subsystem ids.
    pub open spec fn subsystem_text(&self) -> Seq<char> {
        " subsys-vendor: "@ + property_state_text(self.properties.subsystem_vendor_id@)
            + " subsystem-device: "@ + property_state_text(self.properties.subsystem_device_id@)
    }

    /// The part of the text of the device that shows the interrupt line and
    /// the driver that the OS gave it, each only where it is present.
    pub open spec fn os_text(&self) -> Seq<char> {
        (match self.properties.os_irq@ {
            Ok(v) => " os_irq: "@ + irq_text(v),
            Err(_) => Seq::empty(),
        }) + (match self.properties.os_driver@ {
            Ok(v) => " os_driver: '"@ + driver_text(v) + "'"@,
            Err(_) => Seq::empty(),
        })
    }

    /// The text that describes the device: its parts one after the other,
    /// in square brackets.
    pub open spec fn text(&self) -> Seq<char> {
        "["@ + self.ids_text() + self.codes_text() + self.class_name() + self.subsystem_text()
            + self.os_text() + "]"@
    }

    /// Writes out the part of the text of the device that names its class.
    fn push_class_name(&self, out: &mut String)
        ensures
            final(out)@ == old(out)@ + self.class_name(),
    {
        match self.properties.device_class.as_result() {
            Ok(c) => {
                let name = match self.properties.device_subclass.as_result() {
                    Ok(s) => PciDeviceSubclass::from_codes(c, s).to_name(),
                    Err(_) => PciDeviceClass::from_code(c).to_name(),
                };
                out.append(" (");
                out.append(name.as_str());
                crate::text::push_char(out, ')');
            },
            Err(_) => {},
        }
    }

    /// Writes out the part of the text of the device that shows its
    /// location and its two ids.
    fn push_ids(&self, out: &mut String)
        ensures
            final(out)@ == old(out)@ + self.ids_text(),
    {
        out.append(" ");
        out.append(self.properties.location.to_text().as_str());
        out.append(" vendor: ");
        push_upper_hex(out, self.vendor_id as u64, 4);
        out.append(" device: ");
        push_upper_hex(out, self.device_id as u64, 4);
    }

    /// Writes out the part of the text of the device that shows its
    /// revision and its codes.
    fn push_codes(&self, out: &mut String)
        ensures
            final(out)@ == old(out)@ + self.codes_text(),
    {
        out.append(" revision: ");
        out.append(self.properties.revision.to_text().as_str());
        out.append(" class: ");
        out.append(self.properties.device_class.to_text().as_str());
        out.append(" sub-class: ");
        out.append(self.properties.device_subclass.to_text().as_str());
        out.append(" iface-func: ");
        out.append(self.properties.device_iface.to_text().as_str());
    }

    /// Writes out the part of the text of the device that shows its
    /// subsystem ids.
    fn push_subsystem(&self, out: &mut String)
        ensures
            final(out)@ == old(out)@ + self.subsystem_text(),
    {
        out.append(" subsys-vendor: ");
        out.append(self.properties.subsystem_vendor_id.to_text().as_str());
        out.append(" subsystem-device: ");
        out.append(self.properties.subsystem_device_id.to_text().as_str());
    }

    /// Writes out the part of the text of the device that shows its
    /// interrupt line, where that is present.
    fn push_os_irq(&self, out: &mut String)
        ensures
            final(out)@ == old(out)@ + (match self.properties.os_irq@ {
                Ok(v) => " os_irq: "@ + irq_text(v),
                Err(_) => Seq::empty(),
            }),
    {
        match self.properties.os_irq.as_result() {
            Ok(v) => {
                out.append(" os_irq: ");
                match v {
                    Some(n) => {
                        out.append("Some(");
                        push_decimal(out, n as u64);
                        out.append(")");
                    },
                    None => {
                        out.append("None");
                    },
                }
            },
            Err(_) => {},
        }
    }

    /// Writes out the part of the text of the device that shows its driver,
    /// where that is present.
    fn push_os_driver(&self, out: &mut String)
        ensures
            final(out)@ == old(out)@ + (match self.properties.os_driver@ {
                Ok(v) => " os_driver: '"@ + driver_text(v) + "'"@,
                Err(_) => Seq::empty(),
            }),
    {
        match self.properties.os_driver.as_result_ref() {
            Ok(v) => {
                out.append(" os_driver: '");
                match v {
                    Some(name) => {
                        out.append("Some(");
                        out.append(show_text(name.as_str()).as_str());
                        out.append(")");
                    },
                    None => {
                        out.append("None");
                    },
                }
                out.append("'");
            },
            Err(_) => {},
        }
    }

    /// Writes out the text that describes the device.
    pub fn to_text(&self) -> (r: String)
        ensures
            r@ == self.text(),
    {
        let mut out = String::from_str("[");
        self.push_ids(&mut out);
        self.push_codes(&mut out);
        self.push_class_name(&mut out);
        self.push_subsystem(&mut out);
        self.push_os_irq(&mut out);
        self.push_os_driver(&mut out);
        out.append("]");
        out
    }
}

impl core::fmt::Debug for PciDevice {
    /// Writes the text of [`PciDevice::to_text`].
    fn fmt(&self, f: &mut core::fmt::Formatter<'_>) -> core::fmt::Result {
        write_text(f, self.to_text().as_str())
    }
}

} // verus!
