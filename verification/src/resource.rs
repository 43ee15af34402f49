//! Resource descriptors, load states, and the errors a load can end in.

use vstd::prelude::*;

use crate::keys::ResourceKey;

verus! {

/// Spec-level image of a [`Resource`]: its path and the raw value of its
/// key, if one has been attached.
pub ghost struct ResourceView {
    pub path: Seq<char>,
    pub key: Option<u64>,
}

/// Spec-level image of an [`Error`].
pub ghost enum LoadErrorView {
    LoadFailed(ResourceView),
    NotFound(ResourceView),
    Unknown,
}

/// Spec-level image of a [`ResourceState`], with loaded bytes as a sequence.
pub ghost enum LoadStateView {
    Loading,
    Loaded(Seq<u8>),
    Error(LoadErrorView),
}

/// An external resource dynamically loaded from the filesystem.
///
/// A descriptor starts without a key; the resource manager attaches one the
/// first time the resource is requested, and never changes it afterwards.
#[derive(Debug, PartialEq)]
pub struct Resource {
    pub path: String,

    key: Option<ResourceKey>,
}

impl View for Resource {
    type V = ResourceView;

    closed spec fn view(&self) -> ResourceView {
        ResourceView {
            path: self.path@,
            key: match self.key {
                Some(k) => Some(k@),
                None => None,
            },
        }
    }
}

impl Resource {
    /// Creates a new [`Resource`] from a path. No key is attached yet.
    pub fn new(path: &str) -> (res: Self)
        ensures
            res@.path == path@,
            res@.key is None,
    {
        Resource { path: String::from_str(path), key: None }
    }

    /// Returns true if the resource should be requested, i.e. no key has
    /// been attached yet.
    pub fn should_request(&self) -> (r: bool)
        ensures
            r == (self@.key is None),
    {
        self.key.is_none()
    }

    /// The key attached by the resource manager, if the resource has been
    /// requested.
    pub fn key(&self) -> (k: Option<ResourceKey>)
        ensures
            match k {
                Some(key) => self@.key == Some(key@),
                None => self@.key is None,
            },
    {
        self.key
    }

    /// Attaches a freshly issued key. Only the resource manager does this,
    /// and only to a resource that carries no key yet.
    pub(crate) fn attach_key(&mut self, key: ResourceKey)
        ensures
            final(self)@.path == old(self)@.path,
            final(self)@.key == Some(key@),
    {
        self.key = Some(key);
    }
}

impl Clone for Resource {
    /// Cloning a resource preserves it exactly.
    fn clone(&self) -> (res: Self)
        ensures
            res == *self,
    {
        Resource { path: self.path.clone(), key: self.key }
    }
}

/// Possible errors for managing resources.
///
/// `NotFound` and `LoadFailed` are outcomes of a real load attempt on the
/// resource they carry; `Unknown` is the defensive answer for a key that was
/// never issued and is never produced by a load.
#[derive(Debug, PartialEq)]
pub enum Error {
    LoadFailed(Resource),
    NotFound(Resource),
    Unknown,
}

impl View for Error {
    type V = LoadErrorView;

    open spec fn view(&self) -> LoadErrorView {
        match self {
            Error::LoadFailed(res) => LoadErrorView::LoadFailed(res@),
            Error::NotFound(res) => LoadErrorView::NotFound(res@),
            Error::Unknown => LoadErrorView::Unknown,
        }
    }
}

impl Clone for Error {
    /// Cloning an error preserves it exactly.
    fn clone(&self) -> (e: Self)
        ensures
            e == *self,
    {
        match self {
            Error::LoadFailed(res) => Error::LoadFailed(res.clone()),
            Error::NotFound(res) => Error::NotFound(res.clone()),
            Error::Unknown => Error::Unknown,
        }
    }
}

/// The state of a resource, as recorded in the store.
///
/// `Loading` means the request has been accepted and no result is available
/// yet; `Loaded` and `Error` are terminal: once written for a key, the entry
/// never changes again.
#[derive(Debug)]
pub enum ResourceState {
    Loading,
    Loaded(Vec<u8>),
    Error(Error),
}

impl View for ResourceState {
    type V = LoadStateView;

    open spec fn view(&self) -> LoadStateView {
        match self {
            ResourceState::Loading => LoadStateView::Loading,
            ResourceState::Loaded(data) => LoadStateView::Loaded(data@),
            ResourceState::Error(e) => LoadStateView::Error(e@),
        }
    }
}

/// Copies a byte buffer element by element, preserving its contents.
fn clone_bytes(data: &Vec<u8>) -> (out: Vec<u8>)
    ensures
        out@ == data@,
{
    let mut out: Vec<u8> = Vec::new();
    let mut i: usize = 0;
    while i < data.len()
        invariant
            i <= data.len(),
            out@ == data@.subrange(0, i as int),
        decreases data.len() - i,
    {
        out.push(data[i]);
        assert(out@ == data@.subrange(0, i as int + 1));
        i = i + 1;
    }
    assert(data@.subrange(0, data@.len() as int) == data@);
    out
}

impl Clone for ResourceState {
    /// Cloning a state preserves its view: the same variant, with the same
    /// bytes or the same error.
    fn clone(&self) -> (state: Self)
        ensures
            state@ == self@,
    {
        match self {
            ResourceState::Loading => ResourceState::Loading,
            ResourceState::Loaded(data) => ResourceState::Loaded(clone_bytes(data)),
            ResourceState::Error(e) => ResourceState::Error(e.clone()),
        }
    }
}

} // verus!
