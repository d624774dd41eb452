//! The plugin object: lifecycle, dual-interface identity, and property
//! serving.
//!
//! A `PluginHandler` is the one allocated unit the host holds. Its
//! reference count starts at one; identity queries hand out the read or
//! write face and take a reference; the release that brings the count to
//! zero closes the wrapped format, drops the attached stream, and tells
//! the caller to deallocate — exactly once, never earlier.

use vstd::prelude::*;
use crate::com::{IInStream, ICryptoGetTextPassword, ICryptoGetTextPassword2, NFILETIME_WINDOWS};
use crate::error::Error;
use crate::guid::{
    Guid, iid_iinarchive, iid_ioutarchive, iid_iunknown, spec_iid_iinarchive,
    spec_iid_ioutarchive, spec_iid_iunknown,
};
use crate::streams::InStreamReader;
use crate::traits::{ArchiveFormat, ArchiveReader};
use crate::types::{ArchiveItem, PasswordProvider, PasswordRequester};
use crate::variant::{
    RawPropVariant, spec_cleared, spec_filetime_of, spec_set_bool, spec_set_filetime,
    spec_set_u32, spec_set_u64, systemtime_to_filetime, VT_BOOL, VT_BSTR, VT_FILETIME, VT_UI4,
    VT_UI8,
};

verus! {

/// Which host-visible face of the object an identity query produced.
#[derive(Debug, Clone, Copy, PartialEq, Eq, Structural)]
pub enum InterfaceKind {
    /// The read interface, which is also the base identity.
    ReadInterface,
    /// The write interface.
    WriteInterface,
}

/// The single allocated unit the host holds a pointer to: the wrapped
/// format implementation, the reference count, the attached input stream,
/// and the open/closed state.
pub struct PluginHandler<F: ArchiveReader, S: IInStream> {
    /// The wrapped format implementation.
    pub inner: F,
    /// The reference count; the object dies when it reaches zero.
    pub ref_count: u32,
    /// The attached input stream, while one is held.
    pub in_stream: Option<InStreamReader<S>>,
    /// The measured size of the open archive.
    pub archive_size: u64,
    /// Whether an archive is currently open.
    pub is_open: bool,
}

impl<F: ArchiveReader, S: IInStream> PluginHandler<F, S> {
    /// The wrapped format implementation.
    pub open spec fn spec_inner(&self) -> F {
        self.inner
    }

    /// The current reference count.
    pub open spec fn spec_ref_count(&self) -> u32 {
        self.ref_count
    }

    /// Whether an archive is currently open.
    pub open spec fn spec_is_open(&self) -> bool {
        self.is_open
    }

    /// Whether the object holds an attached input stream.
    pub open spec fn spec_has_stream(&self) -> bool {
        self.in_stream is Some
    }

    /// The cached archive byte size.
    pub open spec fn spec_archive_size(&self) -> u64 {
        self.archive_size
    }

    /// The wrapped format's item table.
    pub open spec fn spec_items(&self) -> Seq<ArchiveItem> {
        self.inner.items()
    }

    /// Create a handler around a format implementation. The object starts
    /// closed, with no attached stream and a reference count of one.
    pub fn new(inner: F) -> (h: Self)
        ensures
            h.spec_ref_count() == 1,
            !h.spec_is_open(),
            !h.spec_has_stream(),
            h.spec_archive_size() == 0,
            h.spec_inner() == inner,
    {
        PluginHandler { inner, ref_count: 1, in_stream: None, archive_size: 0, is_open: false }
    }

    /// The wrapped format implementation.
    pub fn inner(&self) -> (r: &F)
        ensures
            *r == self.spec_inner(),
    {
        &self.inner
    }

    /// The wrapped format implementation, mutably.
    pub fn inner_mut(&mut self) -> (r: &mut F)
        ensures
            *r == old(self).spec_inner(),
            final(self).spec_inner() == *final(r),
            final(self).spec_ref_count() == old(self).spec_ref_count(),
            final(self).spec_is_open() == old(self).spec_is_open(),
            final(self).spec_has_stream() == old(self).spec_has_stream(),
            final(self).spec_archive_size() == old(self).spec_archive_size(),
    {
        &mut self.inner
    }

    /// Identity query: the base identity and the read interface resolve to
    /// the read face; the write interface resolves to the write face only
    /// for a format that writes. A recognized query takes one reference;
    /// an unrecognized or unsupported one changes nothing.
    pub fn query_interface(&mut self, riid: &Guid) -> (r: Result<InterfaceKind, Error>)
        requires
            old(self).spec_ref_count() < u32::MAX,
        ensures
            final(self).spec_inner() == old(self).spec_inner(),
            final(self).spec_is_open() == old(self).spec_is_open(),
            final(self).spec_has_stream() == old(self).spec_has_stream(),
            final(self).spec_archive_size() == old(self).spec_archive_size(),
            (*riid == spec_iid_iunknown() || *riid == spec_iid_iinarchive()) ==> {
                &&& r == Ok::<InterfaceKind, Error>(InterfaceKind::ReadInterface)
                &&& final(self).spec_ref_count() == old(self).spec_ref_count() + 1
            },
            (*riid == spec_iid_ioutarchive() && F::spec_supports_write()) ==> {
                &&& r == Ok::<InterfaceKind, Error>(InterfaceKind::WriteInterface)
                &&& final(self).spec_ref_count() == old(self).spec_ref_count() + 1
            },
            (*riid == spec_iid_ioutarchive() && !F::spec_supports_write()) ==> {
                &&& r matches Err(e) && e is NotSupported
                &&& final(self).spec_ref_count() == old(self).spec_ref_count()
            },
            (*riid != spec_iid_iunknown() && *riid != spec_iid_iinarchive() && *riid
                != spec_iid_ioutarchive()) ==> {
                &&& r matches Err(e) && e is NotSupported
                &&& final(self).spec_ref_count() == old(self).spec_ref_count()
            },
    {
        if *riid == iid_iunknown() || *riid == iid_iinarchive() {
            self.ref_count = self.ref_count + 1;
            Ok(InterfaceKind::ReadInterface)
        } else if *riid == iid_ioutarchive() && F::supports_write() {
            self.ref_count = self.ref_count + 1;
            Ok(InterfaceKind::WriteInterface)
        } else {
            Err(Error::NotSupported("unrecognized interface identifier".to_owned()))
        }
    }

    /// Take one reference; returns the new count.
    pub fn add_ref(&mut self) -> (n: u32)
        requires
            old(self).spec_ref_count() < u32::MAX,
        ensures
            final(self).spec_ref_count() == old(self).spec_ref_count() + 1,
            n == final(self).spec_ref_count(),
            final(self).spec_inner() == old(self).spec_inner(),
            final(self).spec_is_open() == old(self).spec_is_open(),
            final(self).spec_has_stream() == old(self).spec_has_stream(),
            final(self).spec_archive_size() == old(self).spec_archive_size(),
    {
        self.ref_count = self.ref_count + 1;
        self.ref_count
    }

    /// Drop one reference; returns the new count and whether this call
    /// destroyed the object. Destruction happens exactly when the count
    /// reaches zero: the attached stream is dropped and the format closed,
    /// and the caller must deallocate the object — once, and only then.
    pub fn release(&mut self) -> (r: (u32, bool))
        requires
            old(self).spec_ref_count() >= 1,
        ensures
            final(self).spec_ref_count() == old(self).spec_ref_count() - 1,
            r.0 == final(self).spec_ref_count(),
            r.1 == (final(self).spec_ref_count() == 0),
            r.1 ==> !final(self).spec_is_open() && !final(self).spec_has_stream(),
            !r.1 ==> {
                &&& final(self).spec_inner() == old(self).spec_inner()
                &&& final(self).spec_is_open() == old(self).spec_is_open()
                &&& final(self).spec_has_stream() == old(self).spec_has_stream()
                &&& final(self).spec_archive_size() == old(self).spec_archive_size()
            },
    {
        self.ref_count = self.ref_count - 1;
        let count = self.ref_count;
        if count == 0 {
            self.in_stream = None;
            self.inner.close();
            self.is_open = false;
            (count, true)
        } else {
            (count, false)
        }
    }

    /// Attach a host stream and open the archive: any previously attached
    /// stream is dropped first, the stream is measured, and the format
    /// parses it (with password support when a requester is present). On
    /// failure the object is left closed with no stream attached.
    pub fn open<P: PasswordRequester>(
        &mut self,
        stream: S,
        password_requester: Option<&P>,
    ) -> (r: Result<(), Error>)
        ensures
            final(self).spec_ref_count() == old(self).spec_ref_count(),
            r is Ok ==> {
                &&& final(self).spec_is_open()
                &&& final(self).spec_has_stream()
                &&& final(self).spec_archive_size() == stream.content().len()
            },
            r is Err ==> !final(self).spec_is_open() && !final(self).spec_has_stream(),
    {
        self.in_stream = None;
        self.is_open = false;
        let mut reader = match InStreamReader::new(stream) {
            Ok(rd) => rd,
            Err(_) => {
                return Err(Error::InvalidFormat("cannot measure input stream".to_owned()));
            },
        };
        let size = reader.size();
        let open_result = self.inner.open_with_password(&mut reader, size, password_requester);
        match open_result {
            Ok(()) => {
                self.in_stream = Some(reader);
                self.archive_size = size;
                self.is_open = true;
                Ok(())
            },
            Err(e) => Err(e),
        }
    }

    /// Close the archive: the format is told to close, the attached stream
    /// is dropped, and the cached size cleared. Always succeeds.
    pub fn close(&mut self) -> (r: Result<(), Error>)
        ensures
            r is Ok,
            final(self).spec_ref_count() == old(self).spec_ref_count(),
            !final(self).spec_is_open(),
            !final(self).spec_has_stream(),
            final(self).spec_archive_size() == 0,
    {
        self.inner.close();
        self.in_stream = None;
        self.is_open = false;
        self.archive_size = 0;
        Ok(())
    }

    /// The number of items of the open archive.
    pub fn get_number_of_items(&self) -> (n: u32)
        requires
            self.spec_items().len() <= u32::MAX,
        ensures
            n == self.spec_items().len(),
    {
        self.inner.item_count() as u32
    }

    /// Read one property of the item at `index` into a fresh variant. An
    /// index outside the table is rejected; every known property encodes
    /// the item's declared value, an absent optional value encodes as
    /// empty, and an unknown property identifier encodes as empty.
    pub fn get_property(&self, index: u32, prop_id: u32) -> (r: Result<RawPropVariant, Error>)
        ensures
            (index as int) < self.spec_items().len() ==> (r matches Ok(v) && item_property_ok(
                self.spec_items()[index as int],
                prop_id,
                v,
            )),
            (index as int) >= self.spec_items().len() ==> (r matches Err(e)
                && e is IndexOutOfBounds),
    {
        let count = self.inner.item_count();
        let item = match self.inner.get_item(index as usize) {
            Some(it) => it,
            None => {
                return Err(Error::IndexOutOfBounds { index: index as usize, count });
            },
        };
        let mut prop = RawPropVariant::default();
        if prop_id == 3 {
            prop.set_bstr(item.name.as_str());
        } else if prop_id == 7 {
            prop.set_u64(item.size);
        } else if prop_id == 8 {
            match item.compressed_size {
                Some(packed) => prop.set_u64(packed),
                None => prop.set_empty(),
            }
        } else if prop_id == 6 {
            prop.set_bool(item.is_dir);
        } else if prop_id == 12 {
            match item.modified {
                Some(t) => prop.set_filetime(systemtime_to_filetime(t)),
                None => prop.set_empty(),
            }
        } else if prop_id == 10 {
            match item.created {
                Some(t) => prop.set_filetime(systemtime_to_filetime(t)),
                None => prop.set_empty(),
            }
        } else if prop_id == 11 {
            match item.accessed {
                Some(t) => prop.set_filetime(systemtime_to_filetime(t)),
                None => prop.set_empty(),
            }
        } else if prop_id == 9 {
            match item.attributes {
                Some(a) => prop.set_u32(a),
                None => prop.set_empty(),
            }
        } else if prop_id == 19 {
            match item.crc {
                Some(c) => prop.set_u32(c),
                None => prop.set_empty(),
            }
        } else if prop_id == 21 {
            prop.set_bool(item.encrypted);
        } else {
            prop.set_empty();
        }
        Ok(prop)
    }

    /// Read an archive-level property: the physical size is the format's
    /// own when it tracks one, the measured stream size otherwise; any
    /// other identifier encodes as empty.
    pub fn get_archive_property(&self, prop_id: u32) -> (r: Result<RawPropVariant, Error>)
        ensures
            r matches Ok(v) && (if prop_id == 4 {
                v == spec_set_u64(
                    match self.spec_inner().spec_physical_size() {
                        Some(s) => s,
                        None => self.spec_archive_size(),
                    },
                )
            } else {
                v == spec_cleared()
            }),
    {
        let mut prop = RawPropVariant::default();
        if prop_id == 4 {
            match self.inner.physical_size() {
                Some(s) => prop.set_u64(s),
                None => prop.set_u64(self.archive_size),
            }
        } else {
            prop.set_empty();
        }
        Ok(prop)
    }

    /// How many item properties this bridge serves.
    pub fn get_number_of_properties(&self) -> (n: u32)
        ensures
            n == 10,
    {
        10
    }

    /// The identifier and variant type of the item property at `index` in
    /// the bridge's fixed property table.
    pub fn get_property_info(&self, index: u32) -> (r: Result<(u32, u32), Error>)
        ensures
            match r {
                Ok(p) => spec_property_info(index) == Some(p),
                Err(e) => spec_property_info(index) is None && e is IndexOutOfBounds,
            },
    {
        if index == 0 {
            Ok((3, VT_BSTR as u32))
        } else if index == 1 {
            Ok((7, VT_UI8 as u32))
        } else if index == 2 {
            Ok((8, VT_UI8 as u32))
        } else if index == 3 {
            Ok((6, VT_BOOL as u32))
        } else if index == 4 {
            Ok((12, VT_FILETIME as u32))
        } else if index == 5 {
            Ok((10, VT_FILETIME as u32))
        } else if index == 6 {
            Ok((11, VT_FILETIME as u32))
        } else if index == 7 {
            Ok((9, VT_UI4 as u32))
        } else if index == 8 {
            Ok((19, VT_UI4 as u32))
        } else if index == 9 {
            Ok((21, VT_BOOL as u32))
        } else {
            Err(Error::IndexOutOfBounds { index: index as usize, count: 10 })
        }
    }

    /// How many archive-level properties this bridge serves.
    pub fn get_number_of_archive_properties(&self) -> (n: u32)
        ensures
            n == 1,
    {
        1
    }

    /// The identifier and variant type of the archive property at `index`.
    pub fn get_archive_property_info(&self, index: u32) -> (r: Result<(u32, u32), Error>)
        ensures
            index == 0 ==> r == Ok::<(u32, u32), Error>((4, VT_UI8 as u32)),
            index != 0 ==> (r matches Err(e) && e is IndexOutOfBounds),
    {
        if index == 0 {
            Ok((4, VT_UI8 as u32))
        } else {
            Err(Error::IndexOutOfBounds { index: index as usize, count: 1 })
        }
    }

    /// The kind of timestamps this bridge reports.
    pub fn get_file_time_type(&self) -> (t: u32)
        ensures
            t == NFILETIME_WINDOWS,
    {
        NFILETIME_WINDOWS
    }
}

/// Does `v` hold the encoding of `item`'s property `prop_id`? The known
/// identifiers encode the declared value — absent optional values encode
/// as empty — and unknown identifiers encode as empty.
pub open spec fn item_property_ok(item: ArchiveItem, prop_id: u32, v: RawPropVariant) -> bool {
    if prop_id == 3 {
        v.vt == VT_BSTR && v.data == 0 && v.spec_get_bstr() == Some(item.name@)
    } else if prop_id == 7 {
        v == spec_set_u64(item.size)
    } else if prop_id == 8 {
        match item.compressed_size {
            Some(packed) => v == spec_set_u64(packed),
            None => v == spec_cleared(),
        }
    } else if prop_id == 6 {
        v == spec_set_bool(item.is_dir)
    } else if prop_id == 12 {
        match item.modified {
            Some(t) => v == spec_set_filetime(spec_filetime_of(t)),
            None => v == spec_cleared(),
        }
    } else if prop_id == 10 {
        match item.created {
            Some(t) => v == spec_set_filetime(spec_filetime_of(t)),
            None => v == spec_cleared(),
        }
    } else if prop_id == 11 {
        match item.accessed {
            Some(t) => v == spec_set_filetime(spec_filetime_of(t)),
            None => v == spec_cleared(),
        }
    } else if prop_id == 9 {
        match item.attributes {
            Some(a) => v == spec_set_u32(a),
            None => v == spec_cleared(),
        }
    } else if prop_id == 19 {
        match item.crc {
            Some(c) => v == spec_set_u32(c),
            None => v == spec_cleared(),
        }
    } else if prop_id == 21 {
        v == spec_set_bool(item.encrypted)
    } else {
        v == spec_cleared()
    }
}

/// The bridge's fixed item property table: identifier and variant type by
/// position.
pub open spec fn spec_property_info(index: u32) -> Option<(u32, u32)> {
    if index == 0 {
        Some((3u32, VT_BSTR as u32))
    } else if index == 1 {
        Some((7u32, VT_UI8 as u32))
    } else if index == 2 {
        Some((8u32, VT_UI8 as u32))
    } else if index == 3 {
        Some((6u32, VT_BOOL as u32))
    } else if index == 4 {
        Some((12u32, VT_FILETIME as u32))
    } else if index == 5 {
        Some((10u32, VT_FILETIME as u32))
    } else if index == 6 {
        Some((11u32, VT_FILETIME as u32))
    } else if index == 7 {
        Some((9u32, VT_UI4 as u32))
    } else if index == 8 {
        Some((19u32, VT_UI4 as u32))
    } else if index == 9 {
        Some((21u32, VT_BOOL as u32))
    } else {
        None
    }
}

/// The reference count an object reaches after its creation, `adds`
/// add-reference calls and `rels` release calls.
pub open spec fn rc_after(adds: nat, rels: nat) -> int {
    1 + adds - rels
}

/// Reference-count linearizability: after creation and any number of
/// extra add-reference calls, the count reaches zero — the point at which
/// `release` destroys the object — exactly on release number `adds + 1`,
/// never on an earlier release; and since `release` demands a positive
/// count, no release (and so no second destruction) can follow.
pub proof fn lemma_release_destroys_exactly_once(adds: nat, rels: nat)
    requires
        rels <= adds + 1,
    ensures
        rc_after(adds, rels) == 0 <==> rels == adds + 1,
        rels < adds + 1 ==> rc_after(adds, rels) > 0,
{
}

/// The decryption-password mapping of the negotiation: a failed or
/// cancelled prompt yields no password rather than an error, a reply
/// without text yields the empty password, and text passes through.
pub fn interpret_password_reply(reply: Result<Option<String>, Error>) -> (r: Result<
    Option<String>,
    Error,
>)
    ensures
        reply is Err ==> r == Ok::<Option<String>, Error>(None),
        reply matches Ok(None) ==> (r matches Ok(p) && p matches Some(s) && s@
            == Seq::<char>::empty()),
        reply matches Ok(Some(text)) ==> (r matches Ok(p) && p matches Some(s) && s@ == text@),
{
    match reply {
        Err(_) => Ok(None),
        Ok(None) => Ok(Some(String::new())),
        Ok(Some(p)) => Ok(Some(p)),
    }
}

/// The encryption-password mapping of the negotiation: a failed prompt or
/// an undefined password means no encryption was requested; a defined
/// password without text is the empty password, distinct from none at
/// all; defined text passes through.
pub fn interpret_password2_reply(reply: Result<(bool, Option<String>), Error>) -> (r: Result<
    Option<String>,
    Error,
>)
    ensures
        reply is Err ==> r == Ok::<Option<String>, Error>(None),
        reply matches Ok(t) ==> (if !t.0 {
            r == Ok::<Option<String>, Error>(None)
        } else {
            match t.1 {
                Some(text) => r matches Ok(p) && p matches Some(s) && s@ == text@,
                None => r matches Ok(p) && p matches Some(s) && s@ == Seq::<char>::empty(),
            }
        }),
{
    match reply {
        Err(_) => Ok(None),
        Ok((false, _)) => Ok(None),
        Ok((true, None)) => Ok(Some(String::new())),
        Ok((true, Some(p))) => Ok(Some(p)),
    }
}

/// Present the host's decryption-password capability as a password
/// requester, applying `interpret_password_reply` to whatever the host
/// answers.
pub struct PasswordRequesterWrapper<C: ICryptoGetTextPassword> {
    crypto_callback: C,
}

impl<C: ICryptoGetTextPassword> PasswordRequesterWrapper<C> {
    /// Wrap a negotiated host capability.
    pub fn new(crypto_callback: C) -> Self {
        PasswordRequesterWrapper { crypto_callback }
    }
}

impl<C: ICryptoGetTextPassword> PasswordRequester for PasswordRequesterWrapper<C> {
    fn get_password(&self) -> Result<Option<String>, Error> {
        interpret_password_reply(self.crypto_callback.crypto_get_text_password())
    }
}

/// Present the host's encryption-password capability as a password
/// provider, applying `interpret_password2_reply` to whatever the host
/// answers.
pub struct PasswordProviderWrapper<C: ICryptoGetTextPassword2> {
    crypto_callback: C,
}

impl<C: ICryptoGetTextPassword2> PasswordProviderWrapper<C> {
    /// Wrap a negotiated host capability.
    pub fn new(crypto_callback: C) -> Self {
        PasswordProviderWrapper { crypto_callback }
    }
}

impl<C: ICryptoGetTextPassword2> PasswordProvider for PasswordProviderWrapper<C> {
    fn get_password(&self) -> Result<Option<String>, Error> {
        interpret_password2_reply(self.crypto_callback.crypto_get_text_password2())
    }
}

} // verus!
