//! The bookkeeping of custom shader views: the size of the texture a shader
//! draws into, and when a cached pipeline and texture can be kept.
use vstd::prelude::*;
use std::collections::HashMap;

verus! {

/// The size of the texture for a view `pixel_width` by `pixel_height`
/// physical pixels: at least one pixel each way.
pub fn texture_extent(pixel_width: u32, pixel_height: u32) -> (extent: (u32, u32))
    ensures
        extent.0 == (if pixel_width < 1 { 1 } else { pixel_width }),
        extent.1 == (if pixel_height < 1 { 1 } else { pixel_height }),
        extent.0 >= 1 && extent.1 >= 1,
{
    let w = if pixel_width < 1 { 1 } else { pixel_width };
    let h = if pixel_height < 1 { 1 } else { pixel_height };
    (w, h)
}

/// What a cached shader entry was built for.
#[derive(Debug, Clone, Copy, PartialEq, Eq, Structural)]
pub struct ShaderEntryInfo {
    pub width: u32,
    pub height: u32,
    pub user_buffer_size: usize,
}

/// What to do with the shader cache before drawing.
#[derive(Debug, Clone, Copy, PartialEq, Eq, Structural)]
pub enum ShaderCacheAction {
    /// The cached entry fits: keep it.
    Reuse,
    /// The cached entry does not fit: release its texture and build anew.
    Replace,
    /// Nothing is cached: build.
    Create,
}

pub open spec fn spec_shader_cache_action(cached: Option<ShaderEntryInfo>, width: u32, height: u32, input_len: usize) -> ShaderCacheAction {
    match cached {
        Some(e) => if e.width == width && e.height == height && e.user_buffer_size == input_len {
            ShaderCacheAction::Reuse
        } else {
            ShaderCacheAction::Replace
        },
        None => ShaderCacheAction::Create,
    }
}

/// Whether the cached entry for a view still fits a texture `width` by
/// `height` and `input_len` bytes of user inputs.
pub fn shader_cache_action(cached: Option<ShaderEntryInfo>, width: u32, height: u32, input_len: usize) -> (action: ShaderCacheAction)
    ensures
        action == spec_shader_cache_action(cached, width, height, input_len),
{
    match cached {
        Some(e) => if e.width == width && e.height == height && e.user_buffer_size == input_len {
            ShaderCacheAction::Reuse
        } else {
            ShaderCacheAction::Replace
        },
        None => ShaderCacheAction::Create,
    }
}

/// A shader takes a second, user bind group only when it has input bytes.
pub fn has_user_inputs(input_len: usize) -> (has: bool)
    ensures
        has == (input_len > 0),
{
    input_len > 0
}

/// The entry kept for a request: the texture extent of the view and the size
/// of its user inputs.
pub open spec fn spec_requested_entry(pixel_width: u32, pixel_height: u32, input_len: usize) -> ShaderEntryInfo {
    ShaderEntryInfo {
        width: if pixel_width < 1 { 1 } else { pixel_width },
        height: if pixel_height < 1 { 1 } else { pixel_height },
        user_buffer_size: input_len,
    }
}

/// The cached entry of `id` in a cache holding `m`, if any.
pub open spec fn cached_entry(m: Map<u64, ShaderEntryInfo>, id: u64) -> Option<ShaderEntryInfo> {
    if m.contains_key(id) { Some(m[id]) } else { None }
}

/// What each shader view's cached pipeline and texture were built for, by
/// view id.
pub struct ShaderCache {
    entries: HashMap<u64, ShaderEntryInfo>,
}

impl View for ShaderCache {
    type V = Map<u64, ShaderEntryInfo>;

    closed spec fn view(&self) -> Map<u64, ShaderEntryInfo> {
        self.entries@
    }
}

impl ShaderCache {
    /// An empty cache.
    pub fn new() -> (c: Self)
        ensures
            c@ == Map::<u64, ShaderEntryInfo>::empty(),
    {
        ShaderCache { entries: HashMap::new() }
    }

    /// The entry cached for `id`.
    pub fn get(&self, id: u64) -> (e: Option<ShaderEntryInfo>)
        ensures
            e == cached_entry(self@, id),
    {
        broadcast use vstd::std_specs::hash::group_hash_axioms;
        match self.entries.get(&id) {
            Some(e) => Some(*e),
            None => None,
        }
    }

    /// Makes sure a fitting entry is cached for a request of view `id`,
    /// `pixel_width` by `pixel_height` physical pixels with `input_len`
    /// bytes of user inputs. Afterwards the cache holds the requested entry
    /// for `id` and the same entries as before for every other id. The
    /// result says whether the old entry was kept, replaced (its texture is
    /// to be released) or newly created.
    pub fn ensure_entry(&mut self, id: u64, pixel_width: u32, pixel_height: u32, input_len: usize) -> (action: ShaderCacheAction)
        ensures
            action == spec_shader_cache_action(cached_entry(old(self)@, id),
                spec_requested_entry(pixel_width, pixel_height, input_len).width,
                spec_requested_entry(pixel_width, pixel_height, input_len).height, input_len),
            final(self)@ == old(self)@.insert(id, spec_requested_entry(pixel_width, pixel_height, input_len)),
    {
        broadcast use vstd::std_specs::hash::group_hash_axioms;
        let (w, h) = texture_extent(pixel_width, pixel_height);
        let cached = self.get(id);
        let action = shader_cache_action(cached, w, h, input_len);
        let entry = ShaderEntryInfo { width: w, height: h, user_buffer_size: input_len };
        match action {
            ShaderCacheAction::Reuse => {
                assert(old(self)@.insert(id, entry) =~= old(self)@);
            },
            _ => {
                self.entries.insert(id, entry);
            },
        }
        action
    }
}

/// A cached entry is kept only when it was built for exactly the requested
/// size and inputs: an entry differing in width, height or input size is
/// replaced, and without an entry one is created.
pub proof fn lemma_reuse_only_exact_fit(cached: Option<ShaderEntryInfo>, width: u32, height: u32, input_len: usize)
    ensures
        spec_shader_cache_action(cached, width, height, input_len) == ShaderCacheAction::Reuse <==>
            cached == Some(ShaderEntryInfo { width, height, user_buffer_size: input_len }),
        cached is None <==> spec_shader_cache_action(cached, width, height, input_len) == ShaderCacheAction::Create,
        (cached matches Some(e) && (e.width != width || e.height != height || e.user_buffer_size != input_len))
            ==> spec_shader_cache_action(cached, width, height, input_len) == ShaderCacheAction::Replace,
{
}

/// A request repeated with the same size and inputs reuses the entry the
/// first request left.
pub proof fn lemma_repeated_request_reuses(m: Map<u64, ShaderEntryInfo>, id: u64, pixel_width: u32, pixel_height: u32, input_len: usize)
    ensures
        spec_shader_cache_action(
            cached_entry(m.insert(id, spec_requested_entry(pixel_width, pixel_height, input_len)), id),
            spec_requested_entry(pixel_width, pixel_height, input_len).width,
            spec_requested_entry(pixel_width, pixel_height, input_len).height,
            input_len,
        ) == ShaderCacheAction::Reuse,
{
}

} // verus!
