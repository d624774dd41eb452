//! The module entry points the host drives before any object exists:
//! object creation and handler metadata queries.

use vstd::prelude::*;
use crate::com::IInStream;
use crate::error::Error;
use crate::guid::{
    Guid, guid_from_bytes, iid_iinarchive, iid_ioutarchive, spec_guid_from_bytes,
    spec_iid_iinarchive, spec_iid_ioutarchive,
};
use crate::handler::{InterfaceKind, PluginHandler};
use crate::traits::{ArchiveFormat, ArchiveReader};
use crate::variant::{RawPropVariant, spec_cleared, spec_set_bool, spec_set_u32, VT_BSTR};

verus! {

/// How many formats this module serves.
pub fn get_number_of_formats() -> (n: u32)
    ensures
        n == 1,
{
    1
}

/// Does `v` hold the handler metadata of format `F` under `prop_id`? The
/// name, class identifier, extension, write support, signature and
/// signature offset are pinned; anything else reads as empty.
pub open spec fn handler_property_ok<F: ArchiveFormat>(prop_id: u32, v: RawPropVariant) -> bool {
    if prop_id == 0 {
        v.vt == VT_BSTR && v.data == 0 && v.spec_get_bstr() == Some(F::spec_name())
    } else if prop_id == 1 {
        v.vt == VT_BSTR && v.data == 0 && v.spec_get_raw() == Some(F::spec_class_id())
    } else if prop_id == 2 {
        v.vt == VT_BSTR && v.data == 0 && v.spec_get_bstr() == Some(F::spec_extension())
    } else if prop_id == 4 {
        v == spec_set_bool(F::spec_supports_write())
    } else if prop_id == 6 {
        match F::spec_signature() {
            Some(sig) => v.vt == VT_BSTR && v.data == 0 && v.spec_get_raw() == Some(sig),
            None => v == spec_cleared(),
        }
    } else if prop_id == 8 {
        v == spec_set_u32(0)
    } else {
        v == spec_cleared()
    }
}

/// Serve one handler metadata property of format `F`. Only format index 0
/// exists. The class identifier and the signature travel as raw byte
/// payloads; the signature sits at offset 0.
pub fn get_handler_property2<F: ArchiveFormat>(format_index: u32, prop_id: u32) -> (r: Result<
    RawPropVariant,
    Error,
>)
    ensures
        format_index == 0 ==> (r matches Ok(v) && handler_property_ok::<F>(prop_id, v)),
        format_index != 0 ==> (r matches Err(e) && e is IndexOutOfBounds),
{
    if format_index != 0 {
        return Err(Error::IndexOutOfBounds { index: format_index as usize, count: 1 });
    }
    let mut prop = RawPropVariant::default();
    if prop_id == 0 {
        prop.set_bstr(F::name());
    } else if prop_id == 1 {
        let id = F::class_id();
        prop.set_guid(&id);
    } else if prop_id == 2 {
        prop.set_bstr(F::extension());
    } else if prop_id == 4 {
        prop.set_bool(F::supports_write());
    } else if prop_id == 6 {
        match F::signature() {
            Some(sig) => prop.set_bytes(sig),
            None => prop.set_empty(),
        }
    } else if prop_id == 8 {
        prop.set_u32(0);
    } else {
        prop.set_empty();
    }
    Ok(prop)
}

/// The module's create-object entry point: a class identifier other than
/// the format's own is not available; a matching class yields a fresh
/// handler presenting the requested face, the write face only for a
/// format that writes.
pub fn create_object<F: ArchiveReader, S: IInStream>(clsid: &Guid, iid: &Guid, inner: F) -> (r:
    Result<(PluginHandler<F, S>, InterfaceKind), Error>)
    ensures
        *clsid != spec_guid_from_bytes(F::spec_class_id()) ==> (r matches Err(e)
            && e is NotSupported),
        *clsid == spec_guid_from_bytes(F::spec_class_id()) ==> {
            if *iid == spec_iid_iinarchive() {
                r matches Ok(p) && p.1 == InterfaceKind::ReadInterface && p.0.spec_ref_count()
                    == 1 && !p.0.spec_is_open() && p.0.spec_inner() == inner
            } else if *iid == spec_iid_ioutarchive() && F::spec_supports_write() {
                r matches Ok(p) && p.1 == InterfaceKind::WriteInterface && p.0.spec_ref_count()
                    == 1 && !p.0.spec_is_open() && p.0.spec_inner() == inner
            } else {
                r matches Err(e) && e is NotSupported
            }
        },
{
    let id_bytes = F::class_id();
    let format_guid = guid_from_bytes(&id_bytes);
    if *clsid != format_guid {
        return Err(Error::NotSupported("class not available".to_owned()));
    }
    if *iid == iid_iinarchive() {
        Ok((PluginHandler::new(inner), InterfaceKind::ReadInterface))
    } else if *iid == iid_ioutarchive() && F::supports_write() {
        Ok((PluginHandler::new(inner), InterfaceKind::WriteInterface))
    } else {
        Err(Error::NotSupported("class not available".to_owned()))
    }
}

} // verus!
