//! The register of loaded images and of loads in flight.
//!
//! The register never touches a file or the network. A call that finds a
//! load to be due says so with a [`LoadRequest`]; whoever owns the decoder
//! carries it out and reports back with [`loaded`] or [`load_err`]. At most
//! one load per key is in flight at any time.

use vstd::hash_map::StringHashMap;
use vstd::hash_set::StringHashSet;
use vstd::prelude::*;
use vstd::string::StringExecFns;

verus! {

/// The key prefix under which images from the local disk are registered.
pub const LOCAL_IMG_PREFIX: &'static str = "!local:";

/// The placeholder that is drawn for an image that is not loaded yet.
pub const DEFAULT_IMG: &'static str = "../assets/iconmonstr-picture-1-240.png";

/// A load that is due.
#[derive(Debug, PartialEq, Eq)]
pub enum LoadRequest {
    /// Fetch `src` from the network, decode it, and report the outcome
    /// under the key `src`.
    Fetch { src: String },
    /// Decode the local file `file` and report the outcome under `key`.
    Decode { key: String, file: String },
}

/// Whether `req` asks to fetch `src`.
pub open spec fn is_fetch_of(req: LoadRequest, src: Seq<char>) -> bool {
    match req {
        LoadRequest::Fetch { src: s } => s@ == src,
        _ => false,
    }
}

/// Whether `req` asks to decode the local file `file` under its prefixed
/// key.
pub open spec fn is_decode_of(req: LoadRequest, file: Seq<char>) -> bool {
    match req {
        LoadRequest::Decode { key, file: f } => key@ == local_key(file) && f@ == file,
        _ => false,
    }
}

/// The key under which the local file `file` is registered.
pub open spec fn local_key(file: Seq<char>) -> Seq<char> {
    LOCAL_IMG_PREFIX@ + file
}

/// The natural size registered under `key`, if there is one.
pub open spec fn size_in(sizes: Map<Seq<char>, (u32, u32)>, key: Seq<char>) -> Option<(u32, u32)> {
    if sizes.contains_key(key) {
        Some(sizes[key])
    } else {
        None
    }
}

/// The natural sizes of the images that are loaded, and the keys of the
/// loads that are in flight.
pub struct LoadRegister {
    sizes: StringHashMap<(u32, u32)>,
    loading: StringHashSet,
    default_requested: bool,
}

impl LoadRegister {
    /// The natural width and height of each loaded image, by key.
    pub closed spec fn sizes(&self) -> Map<Seq<char>, (u32, u32)> {
        self.sizes@
    }

    /// The keys whose load is in flight.
    pub closed spec fn loading(&self) -> Set<Seq<char>> {
        self.loading@
    }

    /// Whether the placeholder image has been asked for.
    pub closed spec fn default_requested(&self) -> bool {
        self.default_requested
    }

    /// A register with nothing loaded and nothing in flight.
    pub fn new() -> (reg: LoadRegister)
        ensures
            reg.sizes() == Map::<Seq<char>, (u32, u32)>::empty(),
            reg.loading() == Set::<Seq<char>>::empty(),
            !reg.default_requested(),
    {
        LoadRegister {
            sizes: StringHashMap::new(),
            loading: StringHashSet::new(),
            default_requested: false,
        }
    }

    /// The natural size of the image registered under `key`, if it is
    /// loaded.
    pub fn size_of(&self, key: &str) -> (size: Option<(u32, u32)>)
        ensures
            size == size_in(self.sizes(), key@),
    {
        match self.sizes.get(key) {
            Some(s) => Some(*s),
            None => None,
        }
    }

    /// Whether a load of `key` is in flight.
    pub fn is_loading(&self, key: &str) -> (r: bool)
        ensures
            r == self.loading().contains(key@),
    {
        self.loading.contains(key)
    }

    /// Asks for the placeholder image the first time it is called: the
    /// request of [`load_local_img`] for [`DEFAULT_IMG`]. Every later call
    /// asks for nothing.
    pub fn request_default(&mut self) -> (req: Option<LoadRequest>)
        ensures
            final(self).sizes() == old(self).sizes(),
            final(self).loading() == old(self).loading(),
            final(self).default_requested(),
            req is Some <==> !old(self).default_requested() && !old(self).sizes().contains_key(
                local_key(DEFAULT_IMG@),
            ),
            req is Some ==> is_decode_of(req->0, DEFAULT_IMG@),
    {
        if self.default_requested {
            return None;
        }
        self.default_requested = true;
        load_local_img(self, DEFAULT_IMG)
    }
}

/// Begins to load the remote image `src` unless there is nothing to do:
/// when `src` is empty, already loaded, or already being loaded, nothing
/// changes and nothing is asked for. Otherwise `src` is marked as in flight
/// and the request to fetch it is returned.
pub fn load_img(reg: &mut LoadRegister, src: &str) -> (req: Option<LoadRequest>)
    ensures
        final(reg).sizes() == old(reg).sizes(),
        final(reg).default_requested() == old(reg).default_requested(),
        req is Some <==> src@.len() > 0 && !old(reg).loading().contains(src@) && !old(
            reg,
        ).sizes().contains_key(src@),
        req is Some ==> is_fetch_of(req->0, src@) && final(reg).loading() == old(
            reg,
        ).loading().insert(src@),
        req is None ==> final(reg).loading() == old(reg).loading(),
{
    if src.is_empty() {
        return None;
    }
    if reg.loading.contains(src) {
        return None;
    }
    if reg.sizes.contains_key(src) {
        return None;
    }
    reg.loading.insert(src.to_owned());
    Some(LoadRequest::Fetch { src: src.to_owned() })
}

/// Asks for the local image `file` to be decoded under its prefixed key,
/// unless that key is already loaded. The register itself does not change
/// until the outcome is reported.
pub fn load_local_img(reg: &LoadRegister, file: &str) -> (req: Option<LoadRequest>)
    ensures
        req is Some <==> !reg.sizes().contains_key(local_key(file@)),
        req is Some ==> is_decode_of(req->0, file@),
{
    let key = String::from_str(LOCAL_IMG_PREFIX).concat(file);
    if reg.sizes.contains_key(key.as_str()) {
        return None;
    }
    Some(LoadRequest::Decode { key, file: file.to_owned() })
}

/// Records the outcome of decoding the image registered under `src`: the
/// load is no longer in flight, and, if decoding gave a size, the image is
/// loaded with that size.
pub fn loaded(reg: &mut LoadRegister, src: &str, size: Option<(u32, u32)>)
    ensures
        final(reg).loading() == old(reg).loading().remove(src@),
        final(reg).default_requested() == old(reg).default_requested(),
        final(reg).sizes() == match size {
            Some(s) => old(reg).sizes().insert(src@, s),
            None => old(reg).sizes(),
        },
{
    reg.loading.remove(src);
    match size {
        Some(s) => {
            reg.sizes.insert(src.to_owned(), s);
        },
        None => {},
    }
}

/// Records that fetching `src` failed: the load is no longer in flight, and
/// nothing else changes.
pub fn load_err(reg: &mut LoadRegister, src: &str)
    ensures
        final(reg).loading() == old(reg).loading().remove(src@),
        final(reg).sizes() == old(reg).sizes(),
        final(reg).default_requested() == old(reg).default_requested(),
{
    reg.loading.remove(src);
}

} // verus!
