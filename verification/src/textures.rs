//! Textures: the two image encodings of the toolkit, their decoding into
//! host textures, and the cache that the toolkit's deltas are applied to.

use std::collections::HashMap;
use vstd::prelude::*;

verus! {

/// The name that the toolkit gives a texture.
#[derive(Clone, Copy, Debug, PartialEq, Eq, Hash, Structural)]
pub enum TextureId {
    /// A texture that the toolkit manages. The first one is the font atlas.
    Managed(u64),
    /// A texture that the application supplied.
    User(u64),
}

/// A colour with 8 bits per channel and premultiplied alpha.
#[derive(Clone, Copy, Debug, PartialEq, Eq, Structural)]
pub struct Color32 {
    pub r: u8,
    pub g: u8,
    pub b: u8,
    pub a: u8,
}

/// A full-colour image, row by row from the top.
#[derive(Debug, PartialEq, Eq)]
pub struct ColorImage {
    pub width: usize,
    pub height: usize,
    pub pixels: Vec<Color32>,
}

/// A single-channel image of the font atlas, row by row from the top. Each
/// pixel is the opacity of white at that place, from 0 to 255.
#[derive(Debug, PartialEq, Eq)]
pub struct FontImage {
    pub width: usize,
    pub height: usize,
    pub pixels: Vec<u8>,
}

/// An image in one of the two encodings that the toolkit produces.
#[derive(Debug, PartialEq, Eq)]
pub enum ImageData {
    Color(ColorImage),
    Font(FontImage),
}

/// A texture as the host takes it: four bytes per pixel, in the order red,
/// green, blue, alpha.
#[derive(Debug, PartialEq, Eq)]
pub struct Image {
    pub width: usize,
    pub height: usize,
    pub pixels: Vec<u8>,
}

/// What an [`Image`] holds.
pub struct ImageView {
    pub width: usize,
    pub height: usize,
    pub pixels: Seq<u8>,
}

impl View for Image {
    type V = ImageView;

    open spec fn view(&self) -> ImageView {
        ImageView { width: self.width, height: self.height, pixels: self.pixels@ }
    }
}

/// Channel `k` of a colour, in the order red, green, blue, alpha.
pub open spec fn channel(color: Color32, k: int) -> u8 {
    if k == 0 {
        color.r
    } else if k == 1 {
        color.g
    } else if k == 2 {
        color.b
    } else {
        color.a
    }
}

/// The bytes of a row of colours: four for each, in the order red, green,
/// blue, alpha.
pub open spec fn rgba_bytes(pixels: Seq<Color32>) -> Seq<u8> {
    Seq::new(4 * pixels.len(), |i: int| channel(pixels[i / 4], i % 4))
}

/// The bytes of a row of opacities: each one four times, which is white at
/// that opacity with premultiplied alpha.
pub open spec fn coverage_bytes(pixels: Seq<u8>) -> Seq<u8> {
    Seq::new(4 * pixels.len(), |i: int| pixels[i / 4])
}

/// Whether an image holds exactly `width * height` pixels.
pub open spec fn size_matches(image: ImageData) -> bool {
    match image {
        ImageData::Color(color) => color.width * color.height == color.pixels@.len(),
        ImageData::Font(font) => font.width * font.height == font.pixels@.len(),
    }
}

/// The host texture that an image decodes to.
pub open spec fn decoded(image: ImageData) -> ImageView {
    match image {
        ImageData::Color(color) => ImageView {
            width: color.width,
            height: color.height,
            pixels: rgba_bytes(color.pixels@),
        },
        ImageData::Font(font) => ImageView {
            width: font.width,
            height: font.height,
            pixels: coverage_bytes(font.pixels@),
        },
    }
}

/// Whether `width * height == len`, without overflow.
fn holds_pixels(width: usize, height: usize, len: usize) -> (b: bool)
    ensures
        b == (width * height == len),
{
    match width.checked_mul(height) {
        Some(count) => count == len,
        None => false,
    }
}

impl ColorImage {
    /// Whether the image holds exactly `width * height` pixels.
    pub fn size_matches(&self) -> (b: bool)
        ensures
            b == (self.width * self.height == self.pixels@.len()),
    {
        holds_pixels(self.width, self.height, self.pixels.len())
    }
}

impl FontImage {
    /// Whether the image holds exactly `width * height` pixels.
    pub fn size_matches(&self) -> (b: bool)
        ensures
            b == (self.width * self.height == self.pixels@.len()),
    {
        holds_pixels(self.width, self.height, self.pixels.len())
    }
}

impl ImageData {
    /// Whether the image holds exactly `width * height` pixels.
    pub fn size_matches(&self) -> (b: bool)
        ensures
            b == size_matches(*self),
    {
        match self {
            ImageData::Color(color) => color.size_matches(),
            ImageData::Font(font) => font.size_matches(),
        }
    }
}

/// Decodes a full-colour image into a host texture: four bytes for each
/// pixel, in the order red, green, blue, alpha.
///
/// An image whose pixel count does not match its size must not be handed
/// in: test with [`ColorImage::size_matches`].
pub fn color_to_image(color: &ColorImage) -> (image: Image)
    requires
        color.width * color.height == color.pixels@.len(),
    ensures
        image@ == (ImageView {
            width: color.width,
            height: color.height,
            pixels: rgba_bytes(color.pixels@),
        }),
{
    let mut pixels: Vec<u8> = Vec::new();
    let mut i: usize = 0;
    while i < color.pixels.len()
        invariant
            i <= color.pixels.len(),
            pixels@ == rgba_bytes(color.pixels@.take(i as int)),
        decreases color.pixels.len() - i,
    {
        let pixel = color.pixels[i];
        pixels.push(pixel.r);
        pixels.push(pixel.g);
        pixels.push(pixel.b);
        pixels.push(pixel.a);
        proof {
            assert(pixels@ =~= rgba_bytes(color.pixels@.take(i + 1)));
        }
        i += 1;
    }
    proof {
        assert(color.pixels@.take(i as int) == color.pixels@);
    }
    Image { width: color.width, height: color.height, pixels }
}

/// Decodes a font atlas image into a host texture: white, with the opacity
/// of each pixel in all four channels.
///
/// An image whose pixel count does not match its size must not be handed
/// in: test with [`FontImage::size_matches`].
pub fn font_to_image(font: &FontImage) -> (image: Image)
    requires
        font.width * font.height == font.pixels@.len(),
    ensures
        image@ == (ImageView {
            width: font.width,
            height: font.height,
            pixels: coverage_bytes(font.pixels@),
        }),
{
    let mut pixels: Vec<u8> = Vec::new();
    let mut i: usize = 0;
    while i < font.pixels.len()
        invariant
            i <= font.pixels.len(),
            pixels@ == coverage_bytes(font.pixels@.take(i as int)),
        decreases font.pixels.len() - i,
    {
        let a = font.pixels[i];
        pixels.push(a);
        pixels.push(a);
        pixels.push(a);
        pixels.push(a);
        proof {
            assert(pixels@ =~= coverage_bytes(font.pixels@.take(i + 1)));
        }
        i += 1;
    }
    proof {
        assert(font.pixels@.take(i as int) == font.pixels@);
    }
    Image { width: font.width, height: font.height, pixels }
}

/// Decodes an image of either encoding into a host texture.
///
/// An image whose pixel count does not match its size must not be handed
/// in: test with [`ImageData::size_matches`].
pub fn decode(image: &ImageData) -> (texture: Image)
    requires
        size_matches(*image),
    ensures
        texture@ == decoded(*image),
{
    match image {
        ImageData::Color(color) => color_to_image(color),
        ImageData::Font(font) => font_to_image(font),
    }
}

/// One batch of texture changes: images to install under their ids, and
/// ids to release. Within a batch the images are installed first.
#[derive(Debug, PartialEq, Eq)]
pub struct TexturesDelta {
    pub set: Vec<(TextureId, ImageData)>,
    pub free: Vec<TextureId>,
}

/// What the cache holds: for each live texture id, its texture.
pub type Textures = Map<TextureId, ImageView>;

/// Whether every image of a batch holds as many pixels as its size says.
pub open spec fn all_sizes_match(set: Seq<(TextureId, ImageData)>) -> bool {
    forall|i: int| 0 <= i < set.len() ==> size_matches(#[trigger] set[i].1)
}

/// The cache after the images of `set` were installed in order: a later
/// image for an id replaces an earlier one entirely.
pub open spec fn apply_sets(textures: Textures, set: Seq<(TextureId, ImageData)>) -> Textures
    decreases set.len(),
{
    if set.len() == 0 {
        textures
    } else {
        apply_sets(textures, set.drop_last()).insert(set.last().0, decoded(set.last().1))
    }
}

/// The cache after the ids of `free` were released. Releasing an id that
/// the cache does not hold changes nothing.
pub open spec fn apply_frees(textures: Textures, free: Seq<TextureId>) -> Textures
    decreases free.len(),
{
    if free.len() == 0 {
        textures
    } else {
        apply_frees(textures, free.drop_last()).remove(free.last())
    }
}

/// The cache after one batch: its images installed, then its ids released.
pub open spec fn apply_delta(textures: Textures, delta: TexturesDelta) -> Textures {
    apply_frees(apply_sets(textures, delta.set@), delta.free@)
}

/// The cache after a row of batches, each applied whole, oldest first.
pub open spec fn apply_deltas(textures: Textures, deltas: Seq<TexturesDelta>) -> Textures
    decreases deltas.len(),
{
    if deltas.len() == 0 {
        textures
    } else {
        apply_delta(apply_deltas(textures, deltas.drop_last()), deltas.last())
    }
}

/// The ids that a batch names: those it installs images for, in order,
/// then those it releases.
pub open spec fn named_ids(delta: TexturesDelta) -> Seq<TextureId> {
    delta.set@.map_values(|entry: (TextureId, ImageData)| entry.0) + delta.free@
}

/// The ids that a row of batches names, oldest batch first. The texture of
/// an id that is not among them is not touched by the row.
pub open spec fn all_named_ids(deltas: Seq<TexturesDelta>) -> Seq<TextureId>
    decreases deltas.len(),
{
    if deltas.len() == 0 {
        Seq::empty()
    } else {
        all_named_ids(deltas.drop_last()) + named_ids(deltas.last())
    }
}

/// The integer under which the cache files a texture id. Distinct ids have
/// distinct integers.
pub open spec fn key_of(id: TextureId) -> u128 {
    match id {
        TextureId::Managed(n) => (2 * n) as u128,
        TextureId::User(n) => (2 * n + 1) as u128,
    }
}

fn key(id: TextureId) -> (k: u128)
    ensures
        k == key_of(id),
{
    match id {
        TextureId::Managed(n) => 2 * (n as u128),
        TextureId::User(n) => 2 * (n as u128) + 1,
    }
}

impl TexturesDelta {
    /// Appends the ids that the batch names to `ids`.
    pub fn push_named_ids(&self, ids: &mut Vec<TextureId>)
        ensures
            final(ids)@ == old(ids)@ + named_ids(*self),
    {
        let ghost before = ids@;
        let ghost installs = self.set@.map_values(|entry: (TextureId, ImageData)| entry.0);
        let mut i: usize = 0;
        while i < self.set.len()
            invariant
                i <= self.set.len(),
                installs == self.set@.map_values(|entry: (TextureId, ImageData)| entry.0),
                ids@ == before + installs.take(i as int),
            decreases self.set.len() - i,
        {
            ids.push(self.set[i].0);
            proof {
                assert(ids@ =~= before + installs.take(i + 1));
            }
            i += 1;
        }
        let mut j: usize = 0;
        while j < self.free.len()
            invariant
                i == self.set.len(),
                j <= self.free.len(),
                installs == self.set@.map_values(|entry: (TextureId, ImageData)| entry.0),
                ids@ == before + installs.take(i as int) + self.free@.take(j as int),
            decreases self.free.len() - j,
        {
            ids.push(self.free[j]);
            proof {
                assert(ids@ =~= before + installs.take(i as int) + self.free@.take(j + 1));
            }
            j += 1;
        }
        proof {
            assert(installs.take(i as int) == installs);
            assert(self.free@.take(j as int) == self.free@);
            assert(ids@ =~= before + named_ids(*self));
        }
    }

    /// Whether every image of the batch holds as many pixels as its size
    /// says.
    pub fn sizes_match(&self) -> (b: bool)
        ensures
            b == all_sizes_match(self.set@),
    {
        let mut i: usize = 0;
        while i < self.set.len()
            invariant
                i <= self.set.len(),
                all_sizes_match(self.set@.take(i as int)),
            decreases self.set.len() - i,
        {
            if !self.set[i].1.size_matches() {
                return false;
            }
            proof {
                assert forall|j: int| 0 <= j < i + 1 implies size_matches(
                    #[trigger] self.set@.take(i + 1)[j].1,
                ) by {
                    if j < i {
                        assert(self.set@.take(i as int)[j] == self.set@[j]);
                    }
                }
            }
            i += 1;
        }
        proof {
            assert(self.set@.take(i as int) == self.set@);
        }
        true
    }
}

/// The host's textures, by the id that the toolkit gave each.
pub struct TextureCache {
    entries: HashMap<u128, Image>,
}

impl View for TextureCache {
    type V = Textures;

    closed spec fn view(&self) -> Textures {
        Map::new(
            |id: TextureId| self.entries@.contains_key(key_of(id)),
            |id: TextureId| self.entries@[key_of(id)]@,
        )
    }
}

impl TextureCache {
    /// A cache without textures.
    pub fn new() -> (cache: TextureCache)
        ensures
            cache@ == Textures::empty(),
    {
        let cache = TextureCache { entries: HashMap::new() };
        proof {
            assert(cache@ =~= Textures::empty());
        }
        cache
    }

    /// Whether the cache holds a texture for `id`.
    pub fn contains(&self, id: TextureId) -> (b: bool)
        ensures
            b == self@.contains_key(id),
    {
        broadcast use vstd::std_specs::hash::group_hash_axioms;

        let k = key(id);
        self.entries.contains_key(&k)
    }

    /// The texture for `id`, if the cache holds one.
    pub fn get(&self, id: TextureId) -> (out: Option<&Image>)
        ensures
            match out {
                Some(image) => self@.contains_key(id) && image@ == self@[id],
                None => !self@.contains_key(id),
            },
    {
        broadcast use vstd::std_specs::hash::group_hash_axioms;

        let k = key(id);
        self.entries.get(&k)
    }

    /// Installs a texture for `id`, in place of the one that the cache held
    /// for it, if any.
    pub fn insert(&mut self, id: TextureId, image: Image)
        ensures
            final(self)@ == old(self)@.insert(id, image@),
    {
        broadcast use vstd::std_specs::hash::group_hash_axioms;

        let k = key(id);
        self.entries.insert(k, image);
        proof {
            assert(final(self)@ =~= old(self)@.insert(id, image@));
        }
    }

    /// Releases the texture for `id`. Without one, nothing changes.
    pub fn remove(&mut self, id: TextureId)
        ensures
            final(self)@ == old(self)@.remove(id),
    {
        broadcast use vstd::std_specs::hash::group_hash_axioms;

        let k = key(id);
        self.entries.remove(&k);
        proof {
            assert(final(self)@ =~= old(self)@.remove(id));
        }
    }

    /// Applies one batch: installs its images in order, then releases its
    /// ids.
    ///
    /// A batch with an image whose pixel count does not match its size must
    /// not be handed in: test with [`TexturesDelta::sizes_match`].
    pub fn apply(&mut self, delta: &TexturesDelta)
        requires
            all_sizes_match(delta.set@),
        ensures
            final(self)@ == apply_delta(old(self)@, *delta),
    {
        let mut i: usize = 0;
        while i < delta.set.len()
            invariant
                i <= delta.set.len(),
                all_sizes_match(delta.set@),
                self@ == apply_sets(old(self)@, delta.set@.take(i as int)),
            decreases delta.set.len() - i,
        {
            let entry = &delta.set[i];
            proof {
                assert(size_matches(delta.set@[i as int].1));
            }
            self.insert(entry.0, decode(&entry.1));
            proof {
                assert(delta.set@.take(i + 1).drop_last() == delta.set@.take(i as int));
            }
            i += 1;
        }
        proof {
            assert(delta.set@.take(i as int) == delta.set@);
        }
        let ghost installed = self@;

        let mut j: usize = 0;
        while j < delta.free.len()
            invariant
                j <= delta.free.len(),
                self@ == apply_frees(installed, delta.free@.take(j as int)),
            decreases delta.free.len() - j,
        {
            self.remove(delta.free[j]);
            proof {
                assert(delta.free@.take(j + 1).drop_last() == delta.free@.take(j as int));
            }
            j += 1;
        }
        proof {
            assert(delta.free@.take(j as int) == delta.free@);
        }
    }
}

/// Whether a batch installs an image for `id`.
pub open spec fn sets(delta: TexturesDelta, id: TextureId) -> bool {
    exists|i: int| 0 <= i < delta.set@.len() && (#[trigger] delta.set@[i]).0 == id
}

/// Whether a batch releases `id`.
pub open spec fn frees(delta: TexturesDelta, id: TextureId) -> bool {
    delta.free@.contains(id)
}

proof fn lemma_apply_sets(textures: Textures, set: Seq<(TextureId, ImageData)>, id: TextureId)
    ensures
        apply_sets(textures, set).contains_key(id) <==> textures.contains_key(id) || exists|i: int|
            0 <= i < set.len() && (#[trigger] set[i]).0 == id,
        (forall|i: int| 0 <= i < set.len() ==> (#[trigger] set[i]).0 != id) ==> apply_sets(
            textures,
            set,
        )[id] == textures[id],
        forall|i: int|
            0 <= i < set.len() && (#[trigger] set[i]).0 == id && (forall|j: int|
                i < j < set.len() ==> (#[trigger] set[j]).0 != id) ==> apply_sets(
                textures,
                set,
            )[id] == decoded(set[i].1),
    decreases set.len(),
{
    if set.len() > 0 {
        let before = set.drop_last();
        lemma_apply_sets(textures, before, id);
        assert(forall|i: int| 0 <= i < before.len() ==> before[i] == set[i]);
        if set.last().0 == id {
            assert(set[set.len() - 1].0 == id);
        } else {
            assert forall|i: int|
                0 <= i < set.len() && (#[trigger] set[i]).0 == id && (forall|j: int|
                    i < j < set.len() ==> (#[trigger] set[j]).0 != id) implies apply_sets(
                textures,
                set,
            )[id] == decoded(set[i].1) by {
                assert(i < before.len());
                assert(before[i].0 == id);
                assert forall|j: int| i < j < before.len() implies (#[trigger] before[j]).0
                    != id by {
                    assert(set[j].0 != id);
                }
            }
        }
    }
}

proof fn lemma_apply_frees(textures: Textures, free: Seq<TextureId>, id: TextureId)
    ensures
        apply_frees(textures, free).contains_key(id) <==> textures.contains_key(id)
            && !free.contains(id),
        !free.contains(id) ==> apply_frees(textures, free)[id] == textures[id],
    decreases free.len(),
{
    if free.len() > 0 {
        let before = free.drop_last();
        lemma_apply_frees(textures, before, id);
        assert(forall|i: int| 0 <= i < before.len() ==> before[i] == free[i]);
        if free.last() == id {
            assert(free[free.len() - 1] == id);
        }
    }
}

/// After a batch the cache holds a texture for an id exactly if the batch
/// does not release the id, and either installs an image for it or found
/// one in the cache.
pub proof fn lemma_apply_delta_contains(textures: Textures, delta: TexturesDelta, id: TextureId)
    ensures
        apply_delta(textures, delta).contains_key(id) <==> !frees(delta, id) && (sets(delta, id)
            || textures.contains_key(id)),
{
    lemma_apply_sets(textures, delta.set@, id);
    lemma_apply_frees(apply_sets(textures, delta.set@), delta.free@, id);
}

/// After a batch that installs images for an id and does not release it,
/// the cache holds the decoding of the last of them. An id that the batch
/// does not mention keeps its texture.
pub proof fn lemma_apply_delta_texture(textures: Textures, delta: TexturesDelta, id: TextureId)
    requires
        !frees(delta, id),
    ensures
        !sets(delta, id) ==> apply_delta(textures, delta)[id] == textures[id],
        forall|i: int|
            0 <= i < delta.set@.len() && (#[trigger] delta.set@[i]).0 == id && (forall|j: int|
                i < j < delta.set@.len() ==> (#[trigger] delta.set@[j]).0 != id) ==> apply_delta(
                textures,
                delta,
            )[id] == decoded(delta.set@[i].1),
{
    lemma_apply_sets(textures, delta.set@, id);
    lemma_apply_frees(apply_sets(textures, delta.set@), delta.free@, id);
}

/// A texture that a batch installed resolves for as long as no batch
/// releases it: if batch `i` installs an image for `id`, and neither it nor
/// any later batch releases `id`, the cache holds `id` after all batches.
pub proof fn lemma_set_texture_resolves(
    textures: Textures,
    deltas: Seq<TexturesDelta>,
    i: int,
    id: TextureId,
)
    requires
        0 <= i < deltas.len(),
        sets(deltas[i], id),
        forall|j: int| i <= j < deltas.len() ==> !frees(#[trigger] deltas[j], id),
    ensures
        apply_deltas(textures, deltas).contains_key(id),
    decreases deltas.len(),
{
    let before = deltas.drop_last();
    lemma_apply_delta_contains(apply_deltas(textures, before), deltas.last(), id);
    assert(!frees(deltas[deltas.len() - 1], id));
    if i < deltas.len() - 1 {
        assert(forall|j: int| 0 <= j < before.len() ==> before[j] == deltas[j]);
        assert(before[i] == deltas[i]);
        lemma_set_texture_resolves(textures, before, i, id);
    }
}

/// A texture that was released and not installed again is gone: if batch
/// `i` releases `id`, and no later batch installs an image for `id`, the
/// cache does not hold `id` after all batches.
pub proof fn lemma_freed_texture_is_absent(
    textures: Textures,
    deltas: Seq<TexturesDelta>,
    i: int,
    id: TextureId,
)
    requires
        0 <= i < deltas.len(),
        frees(deltas[i], id),
        forall|j: int| i < j < deltas.len() ==> !sets(#[trigger] deltas[j], id),
    ensures
        !apply_deltas(textures, deltas).contains_key(id),
    decreases deltas.len(),
{
    let before = deltas.drop_last();
    lemma_apply_delta_contains(apply_deltas(textures, before), deltas.last(), id);
    if i < deltas.len() - 1 {
        assert(forall|j: int| 0 <= j < before.len() ==> before[j] == deltas[j]);
        assert(before[i] == deltas[i]);
        assert(!sets(deltas[deltas.len() - 1], id));
        lemma_freed_texture_is_absent(textures, before, i, id);
    }
}

proof fn lemma_unmentioned_texture_stays(
    textures: Textures,
    deltas: Seq<TexturesDelta>,
    id: TextureId,
)
    requires
        forall|j: int|
            0 <= j < deltas.len() ==> !sets(#[trigger] deltas[j], id) && !frees(deltas[j], id),
    ensures
        apply_deltas(textures, deltas).contains_key(id) == textures.contains_key(id),
        apply_deltas(textures, deltas)[id] == textures[id],
    decreases deltas.len(),
{
    if deltas.len() > 0 {
        let before = deltas.drop_last();
        assert(forall|j: int| 0 <= j < before.len() ==> before[j] == deltas[j]);
        lemma_unmentioned_texture_stays(textures, before, id);
        assert(!sets(deltas[deltas.len() - 1], id));
        lemma_apply_delta_contains(apply_deltas(textures, before), deltas.last(), id);
        lemma_apply_delta_texture(apply_deltas(textures, before), deltas.last(), id);
    }
}

proof fn lemma_named_ids_cover(deltas: Seq<TexturesDelta>, j: int, id: TextureId)
    requires
        0 <= j < deltas.len(),
        sets(deltas[j], id) || frees(deltas[j], id),
    ensures
        all_named_ids(deltas).contains(id),
    decreases deltas.len(),
{
    let before = deltas.drop_last();
    let earlier = all_named_ids(before);
    if j == deltas.len() - 1 {
        let delta = deltas.last();
        let installs = delta.set@.map_values(|entry: (TextureId, ImageData)| entry.0);
        if sets(delta, id) {
            let i = choose|i: int| 0 <= i < delta.set@.len() && (#[trigger] delta.set@[i]).0 == id;
            assert(installs[i] == id);
            assert(all_named_ids(deltas)[earlier.len() + i] == id);
        } else {
            let i = choose|i: int| 0 <= i < delta.free@.len() && delta.free@[i] == id;
            assert(all_named_ids(deltas)[earlier.len() + installs.len() + i] == id);
        }
    } else {
        assert(before[j] == deltas[j]);
        lemma_named_ids_cover(before, j, id);
        let k = choose|k: int| 0 <= k < earlier.len() && earlier[k] == id;
        assert(all_named_ids(deltas)[k] == id);
    }
}

/// A row of batches leaves alone what it does not name: an id that is not
/// among the ids that the row names is in the cache afterwards exactly if
/// it was before, with the same texture.
pub proof fn lemma_unnamed_texture_stays(
    textures: Textures,
    deltas: Seq<TexturesDelta>,
    id: TextureId,
)
    requires
        !all_named_ids(deltas).contains(id),
    ensures
        apply_deltas(textures, deltas).contains_key(id) == textures.contains_key(id),
        apply_deltas(textures, deltas)[id] == textures[id],
{
    assert forall|j: int| 0 <= j < deltas.len() implies !sets(#[trigger] deltas[j], id) && !frees(
        deltas[j],
        id,
    ) by {
        if sets(deltas[j], id) || frees(deltas[j], id) {
            lemma_named_ids_cover(deltas, j, id);
        }
    }
    lemma_unmentioned_texture_stays(textures, deltas, id);
}

} // verus!
