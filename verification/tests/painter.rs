use ggegui::painter::build_job;
use ggegui::painter::ClipRect;
use ggegui::painter::ClippedPrimitive;
use ggegui::painter::HostVertex;
use ggegui::painter::Mesh;
use ggegui::painter::Painter;
use ggegui::painter::PainterError;
use ggegui::painter::Primitive;
use ggegui::painter::Vertex;
use ggegui::scalar::Scalar;
use ggegui::scalar::Vec2;
use ggegui::textures::color_to_image;
use ggegui::textures::decode;
use ggegui::textures::font_to_image;
use ggegui::textures::Color32;
use ggegui::textures::ColorImage;
use ggegui::textures::FontImage;
use ggegui::textures::Image;
use ggegui::textures::ImageData;
use ggegui::textures::TextureCache;
use ggegui::textures::TextureId;
use ggegui::textures::TexturesDelta;

const WHITE: Color32 = Color32 { r: 255, g: 255, b: 255, a: 255 };

fn s(value: f32) -> Scalar {
    Scalar::from_bits(value.to_bits())
}

fn v(x: f32, y: f32) -> Vec2 {
    Vec2 { x: s(x), y: s(y) }
}

fn white(width: usize, height: usize) -> ImageData {
    ImageData::Color(ColorImage { width, height, pixels: vec![WHITE; width * height] })
}

fn set(id: u64, image: ImageData) -> TexturesDelta {
    TexturesDelta { set: vec![(TextureId::Managed(id), image)], free: vec![] }
}

fn free(id: u64) -> TexturesDelta {
    TexturesDelta { set: vec![], free: vec![TextureId::Managed(id)] }
}

fn empty_delta() -> TexturesDelta {
    TexturesDelta { set: vec![], free: vec![] }
}

fn vertex(x: f32, y: f32) -> Vertex {
    Vertex { pos: v(x, y), uv: v(0.0, 0.0), color: WHITE }
}

/// A mesh with `n` vertices on a row, the first at `x0`.
fn mesh(id: u64, n: usize, x0: f32) -> Mesh {
    Mesh {
        indices: vec![0, 1, 2],
        vertices: (0..n).map(|i| vertex(x0 + i as f32, 0.0)).collect(),
        texture_id: TextureId::Managed(id),
    }
}

fn quad(id: u64) -> Mesh {
    Mesh {
        indices: vec![0, 1, 2, 0, 2, 3],
        vertices: vec![vertex(0.0, 0.0), vertex(1.0, 0.0), vertex(1.0, 1.0), vertex(0.0, 1.0)],
        texture_id: TextureId::Managed(id),
    }
}

fn clipped(primitive: Primitive) -> ClippedPrimitive {
    ClippedPrimitive {
        clip_rect: ClipRect { min: v(0.0, 0.0), max: v(100.0, 100.0) },
        primitive,
    }
}

fn meshes(list: Vec<Mesh>) -> Vec<ClippedPrimitive> {
    list.into_iter().map(|m| clipped(Primitive::Mesh(m))).collect()
}

#[test]
fn a_quad_on_a_fresh_texture_gives_one_job() {
    let mut painter = Painter::default();
    painter.submit(meshes(vec![quad(7)]), set(7, white(2, 2)));
    assert_eq!(painter.validate(), Ok(()));
    painter.update();

    let jobs = painter.paint_jobs();
    assert_eq!(jobs.len(), 1);
    assert_eq!(jobs[0].texture_id, TextureId::Managed(7));
    assert_eq!(jobs[0].indices, vec![0, 1, 2, 0, 2, 3]);
    assert_eq!(jobs[0].vertices.len(), 4);
    assert_eq!(jobs[0].vertices[2], HostVertex { position: v(1.0, 1.0), uv: v(0.0, 0.0), color: WHITE });

    let texture = painter.textures().get(TextureId::Managed(7)).unwrap();
    assert_eq!(texture, &Image { width: 2, height: 2, pixels: vec![255; 16] });
    assert_eq!(painter.pending_deltas(), 0);
}

#[test]
fn a_texture_is_gone_only_after_the_batch_that_frees_it() {
    let mut painter = Painter::default();
    painter.submit(meshes(vec![quad(7)]), set(7, white(2, 2)));
    assert_eq!(painter.validate(), Ok(()));
    painter.update();
    assert!(painter.textures().contains(TextureId::Managed(7)));

    let calls = painter.draw(s(1.0));
    assert_eq!(calls.len(), 1);
    assert_eq!(calls[0].job.texture_id, TextureId::Managed(7));
    assert!(painter.textures().contains(TextureId::Managed(7)));

    painter.submit(vec![], free(7));
    assert!(painter.textures().contains(TextureId::Managed(7)));
    assert_eq!(painter.validate(), Ok(()));
    painter.update();
    assert!(!painter.textures().contains(TextureId::Managed(7)));
}

#[test]
fn a_mesh_with_fewer_than_three_vertices_is_passed_over() {
    for n in 0..3 {
        let mut painter = Painter::default();
        painter.submit(meshes(vec![mesh(7, n, 0.0)]), set(7, white(1, 1)));
        assert_eq!(painter.validate(), Ok(()));
        painter.update();
        assert!(painter.paint_jobs().is_empty());
        assert!(painter.draw(s(1.0)).is_empty());
    }
}

#[test]
fn a_mesh_with_three_vertices_is_drawn() {
    let mut painter = Painter::default();
    painter.submit(meshes(vec![mesh(7, 3, 0.0)]), set(7, white(1, 1)));
    assert_eq!(painter.validate(), Ok(()));
    painter.update();
    assert_eq!(painter.paint_jobs().len(), 1);
}

#[test]
fn a_degenerate_mesh_leaves_the_others_as_they_are() {
    let mut with = Painter::default();
    with.submit(meshes(vec![mesh(7, 3, 0.0), mesh(7, 2, 10.0), mesh(7, 4, 20.0)]), set(7, white(1, 1)));
    assert_eq!(with.validate(), Ok(()));
    with.update();

    let mut without = Painter::default();
    without.submit(meshes(vec![mesh(7, 3, 0.0), mesh(7, 4, 20.0)]), set(7, white(1, 1)));
    assert_eq!(without.validate(), Ok(()));
    without.update();

    assert_eq!(with.paint_jobs(), without.paint_jobs());
    assert_eq!(with.paint_jobs().len(), 2);
}

#[test]
fn a_mesh_without_its_texture_is_passed_over() {
    let mut painter = Painter::default();
    painter.submit(meshes(vec![quad(7), quad(8)]), set(8, white(1, 1)));
    assert_eq!(painter.validate(), Ok(()));
    painter.update();
    assert_eq!(painter.paint_jobs().len(), 1);
    assert_eq!(painter.paint_jobs()[0].texture_id, TextureId::Managed(8));
}

#[test]
fn jobs_and_calls_keep_the_paint_order() {
    let mut painter = Painter::default();
    let delta = TexturesDelta {
        set: vec![(TextureId::Managed(1), white(1, 1)), (TextureId::User(1), white(1, 1))],
        free: vec![],
    };
    let mut third = mesh(1, 3, 30.0);
    third.texture_id = TextureId::User(1);
    painter.submit(meshes(vec![mesh(1, 3, 10.0), mesh(1, 2, 99.0), mesh(1, 5, 20.0), third]), delta);
    assert_eq!(painter.validate(), Ok(()));
    painter.update();

    let firsts: Vec<Vec2> = painter.paint_jobs().iter().map(|j| j.vertices[0].position).collect();
    assert_eq!(firsts, vec![v(10.0, 0.0), v(20.0, 0.0), v(30.0, 0.0)]);

    let calls = painter.draw(s(2.0));
    let drawn: Vec<Vec2> = calls.iter().map(|c| c.job.vertices[0].position).collect();
    assert_eq!(drawn, vec![v(10.0, 0.0), v(20.0, 0.0), v(30.0, 0.0)]);
    assert_eq!(calls[2].job.texture_id, TextureId::User(1));
    assert_eq!(calls[1].job.vertices.len(), 5);
}

#[test]
fn every_call_is_scaled_by_the_factor() {
    let mut painter = Painter::default();
    painter.submit(meshes(vec![quad(7), quad(7)]), set(7, white(1, 1)));
    assert_eq!(painter.validate(), Ok(()));
    painter.update();
    let calls = painter.draw(s(1.5));
    assert_eq!(calls.len(), 2);
    assert!(calls.iter().all(|c| c.scale == s(1.5)));
}

#[test]
fn draw_forgets_the_jobs() {
    let mut painter = Painter::default();
    painter.submit(meshes(vec![quad(7)]), set(7, white(1, 1)));
    assert_eq!(painter.validate(), Ok(()));
    painter.update();
    assert_eq!(painter.draw(s(1.0)).len(), 1);
    assert!(painter.paint_jobs().is_empty());
    assert!(painter.draw(s(1.0)).is_empty());
    assert_eq!(painter.shapes().len(), 1);
}

#[test]
fn a_job_whose_texture_was_freed_gives_no_call() {
    let mut painter = Painter::default();
    painter.submit(meshes(vec![quad(7), quad(8)]), TexturesDelta {
        set: vec![(TextureId::Managed(7), white(1, 1)), (TextureId::Managed(8), white(1, 1))],
        free: vec![],
    });
    assert_eq!(painter.validate(), Ok(()));
    painter.update();
    painter.update_textures(free(7));
    let calls = painter.draw(s(1.0));
    assert_eq!(calls.len(), 1);
    assert_eq!(calls[0].job.texture_id, TextureId::Managed(8));
}

#[test]
fn update_twice_builds_the_jobs_twice() {
    let mut painter = Painter::default();
    painter.submit(meshes(vec![quad(7)]), set(7, white(1, 1)));
    assert_eq!(painter.validate(), Ok(()));
    painter.update();
    assert_eq!(painter.validate(), Ok(()));
    painter.update();
    assert_eq!(painter.paint_jobs().len(), 2);
}

#[test]
fn a_callback_is_refused_and_nothing_changes() {
    let mut painter = Painter::default();
    painter.submit(
        vec![clipped(Primitive::Mesh(quad(7))), clipped(Primitive::Callback)],
        set(7, white(1, 1)),
    );
    assert_eq!(painter.validate(), Err(PainterError::Callback));
    assert!(painter.paint_jobs().is_empty());
    assert!(!painter.textures().contains(TextureId::Managed(7)));
    assert_eq!(painter.pending_deltas(), 1);
    assert_eq!(painter.shapes().len(), 2);
}

#[test]
fn a_batch_of_the_wrong_size_is_refused_and_nothing_changes() {
    let mut painter = Painter::default();
    painter.submit(meshes(vec![quad(7)]), set(7, white(1, 1)));
    let bad = ImageData::Color(ColorImage { width: 2, height: 2, pixels: vec![WHITE; 3] });
    painter.submit(meshes(vec![quad(7)]), set(8, bad));
    assert_eq!(painter.validate(), Err(PainterError::SizeMismatch));
    assert_eq!(painter.pending_deltas(), 2);
    assert!(!painter.textures().contains(TextureId::Managed(7)));
    assert!(painter.paint_jobs().is_empty());
}

#[test]
fn a_wrong_size_comes_before_a_callback() {
    let mut painter = Painter::default();
    let bad = ImageData::Font(FontImage { width: 1, height: 1, pixels: vec![] });
    painter.submit(vec![clipped(Primitive::Callback)], set(1, bad));
    assert_eq!(painter.validate(), Err(PainterError::SizeMismatch));
}

#[test]
fn a_batch_with_a_wrong_size_is_told_apart_before_it_is_applied() {
    let bad = ImageData::Color(ColorImage { width: 3, height: 1, pixels: vec![WHITE; 2] });
    let delta = TexturesDelta {
        set: vec![(TextureId::Managed(1), white(1, 1)), (TextureId::Managed(2), bad)],
        free: vec![],
    };
    assert!(!delta.sizes_match());

    let good = set(1, white(1, 1));
    assert!(good.sizes_match());
    let mut painter = Painter::default();
    painter.update_textures(good);
    assert!(painter.textures().contains(TextureId::Managed(1)));
}

#[test]
fn update_names_the_ids_of_the_batches_it_applied() {
    let mut painter = Painter::default();
    painter.submit(vec![], TexturesDelta {
        set: vec![(TextureId::Managed(7), white(1, 1)), (TextureId::User(2), white(1, 1))],
        free: vec![TextureId::Managed(9)],
    });
    painter.submit(vec![], free(7));
    assert_eq!(painter.validate(), Ok(()));
    assert_eq!(
        painter.update(),
        vec![
            TextureId::Managed(7),
            TextureId::User(2),
            TextureId::Managed(9),
            TextureId::Managed(7),
        ]
    );
    assert!(painter.update().is_empty());
}

#[test]
fn push_named_ids_appends_installs_then_frees() {
    let delta = TexturesDelta {
        set: vec![(TextureId::Managed(1), white(1, 1))],
        free: vec![TextureId::User(5), TextureId::Managed(1)],
    };
    let mut ids = vec![TextureId::User(0)];
    delta.push_named_ids(&mut ids);
    assert_eq!(
        ids,
        vec![TextureId::User(0), TextureId::Managed(1), TextureId::User(5), TextureId::Managed(1)]
    );
}

#[test]
fn batches_are_applied_oldest_first() {
    let mut painter = Painter::default();
    painter.submit(vec![], set(7, white(1, 1)));
    painter.submit(vec![], free(7));
    painter.submit(vec![], set(7, white(2, 1)));
    assert_eq!(painter.pending_deltas(), 3);
    assert_eq!(painter.validate(), Ok(()));
    painter.update();
    let texture = painter.textures().get(TextureId::Managed(7)).unwrap();
    assert_eq!((texture.width, texture.height), (2, 1));

    let mut other = Painter::default();
    other.submit(vec![], set(7, white(1, 1)));
    other.submit(vec![], set(7, white(2, 1)));
    other.submit(vec![], free(7));
    assert_eq!(other.validate(), Ok(()));
    other.update();
    assert!(!other.textures().contains(TextureId::Managed(7)));
}

#[test]
fn within_a_batch_images_are_installed_before_ids_are_freed() {
    let mut cache = TextureCache::new();
    let delta = TexturesDelta {
        set: vec![(TextureId::Managed(7), white(1, 1))],
        free: vec![TextureId::Managed(7)],
    };
    cache.apply(&delta);
    assert!(!cache.contains(TextureId::Managed(7)));
}

#[test]
fn a_later_image_replaces_an_earlier_one_whole() {
    let mut cache = TextureCache::new();
    let red = Color32 { r: 255, g: 0, b: 0, a: 255 };
    let delta = TexturesDelta {
        set: vec![
            (TextureId::Managed(7), white(2, 2)),
            (
                TextureId::Managed(7),
                ImageData::Color(ColorImage { width: 1, height: 1, pixels: vec![red] }),
            ),
        ],
        free: vec![],
    };
    cache.apply(&delta);
    assert_eq!(
        cache.get(TextureId::Managed(7)),
        Some(&Image { width: 1, height: 1, pixels: vec![255, 0, 0, 255] })
    );
}

#[test]
fn freeing_an_absent_texture_changes_nothing() {
    let mut cache = TextureCache::new();
    cache.apply(&set(1, white(1, 1)));
    cache.apply(&free(2));
    cache.apply(&free(2));
    assert!(cache.contains(TextureId::Managed(1)));
    assert!(!cache.contains(TextureId::Managed(2)));
    cache.remove(TextureId::Managed(1));
    cache.remove(TextureId::Managed(1));
    assert!(!cache.contains(TextureId::Managed(1)));
}

#[test]
fn managed_and_user_ids_are_kept_apart() {
    let mut cache = TextureCache::new();
    cache.insert(TextureId::Managed(1), Image { width: 1, height: 1, pixels: vec![1, 1, 1, 1] });
    cache.insert(TextureId::User(0), Image { width: 1, height: 1, pixels: vec![2, 2, 2, 2] });
    cache.insert(TextureId::User(1), Image { width: 1, height: 1, pixels: vec![3, 3, 3, 3] });
    cache.insert(TextureId::Managed(u64::MAX), Image { width: 0, height: 0, pixels: vec![] });
    cache.insert(TextureId::User(u64::MAX), Image { width: 0, height: 1, pixels: vec![] });
    assert_eq!(cache.get(TextureId::Managed(1)).unwrap().pixels, vec![1, 1, 1, 1]);
    assert_eq!(cache.get(TextureId::User(0)).unwrap().pixels, vec![2, 2, 2, 2]);
    assert_eq!(cache.get(TextureId::User(1)).unwrap().pixels, vec![3, 3, 3, 3]);
    assert_eq!(cache.get(TextureId::Managed(u64::MAX)).unwrap().height, 0);
    assert_eq!(cache.get(TextureId::User(u64::MAX)).unwrap().height, 1);
    assert!(!cache.contains(TextureId::Managed(0)));
    cache.remove(TextureId::User(1));
    assert!(cache.contains(TextureId::Managed(1)));
    assert!(!cache.contains(TextureId::User(1)));
}

#[test]
fn a_new_cache_is_empty() {
    let cache = TextureCache::new();
    assert!(!cache.contains(TextureId::Managed(0)));
    assert_eq!(cache.get(TextureId::User(0)), None);
}

#[test]
fn color_to_image_lays_out_the_channels() {
    let image = ColorImage {
        width: 2,
        height: 1,
        pixels: vec![Color32 { r: 1, g: 2, b: 3, a: 4 }, Color32 { r: 5, g: 6, b: 7, a: 8 }],
    };
    assert!(image.size_matches());
    assert_eq!(
        color_to_image(&image),
        Image { width: 2, height: 1, pixels: vec![1, 2, 3, 4, 5, 6, 7, 8] }
    );
}

#[test]
fn font_to_image_repeats_the_opacity() {
    let image = FontImage { width: 1, height: 3, pixels: vec![0, 128, 255] };
    assert!(image.size_matches());
    assert_eq!(
        font_to_image(&image),
        Image {
            width: 1,
            height: 3,
            pixels: vec![0, 0, 0, 0, 128, 128, 128, 128, 255, 255, 255, 255],
        }
    );
}

#[test]
fn an_empty_image_decodes_to_no_bytes() {
    let image = ColorImage { width: 0, height: 5, pixels: vec![] };
    assert!(image.size_matches());
    assert_eq!(color_to_image(&image), Image { width: 0, height: 5, pixels: vec![] });
}

#[test]
fn a_wrong_pixel_count_does_not_match_the_size() {
    let short = ColorImage { width: 2, height: 2, pixels: vec![WHITE; 3] };
    assert!(!short.size_matches());
    let long = FontImage { width: 2, height: 2, pixels: vec![0; 5] };
    assert!(!long.size_matches());
    let huge = FontImage { width: usize::MAX, height: 2, pixels: vec![] };
    assert!(!huge.size_matches());
    assert!(!ImageData::Font(long).size_matches());
    assert!(!ImageData::Color(short).size_matches());
    assert!(white(3, 2).size_matches());
}

#[test]
fn decode_goes_by_the_encoding() {
    let font = ImageData::Font(FontImage { width: 1, height: 1, pixels: vec![9] });
    assert!(font.size_matches());
    assert_eq!(decode(&font), Image { width: 1, height: 1, pixels: vec![9, 9, 9, 9] });
    let color = ImageData::Color(ColorImage {
        width: 1,
        height: 1,
        pixels: vec![Color32 { r: 9, g: 8, b: 7, a: 6 }],
    });
    assert!(color.size_matches());
    assert_eq!(decode(&color), Image { width: 1, height: 1, pixels: vec![9, 8, 7, 6] });
}

#[test]
fn sizes_match_looks_at_every_image() {
    assert!(empty_delta().sizes_match());
    assert!(set(1, white(3, 3)).sizes_match());
    let bad = TexturesDelta {
        set: vec![
            (TextureId::Managed(1), white(1, 1)),
            (TextureId::Managed(2), ImageData::Font(FontImage { width: 1, height: 2, pixels: vec![0] })),
        ],
        free: vec![],
    };
    assert!(!bad.sizes_match());
}

#[test]
fn build_job_copies_the_mesh() {
    let m = Mesh {
        indices: vec![2, 1, 0],
        vertices: vec![
            Vertex { pos: v(1.0, 2.0), uv: v(0.5, 0.25), color: Color32 { r: 1, g: 2, b: 3, a: 4 } },
            vertex(3.0, 4.0),
            vertex(5.0, 6.0),
        ],
        texture_id: TextureId::User(3),
    };
    let job = build_job(&m);
    assert_eq!(job.texture_id, TextureId::User(3));
    assert_eq!(job.indices, vec![2, 1, 0]);
    assert_eq!(
        job.vertices[0],
        HostVertex { position: v(1.0, 2.0), uv: v(0.5, 0.25), color: Color32 { r: 1, g: 2, b: 3, a: 4 } }
    );
    assert_eq!(job.vertices[1].position, v(3.0, 4.0));
    assert_eq!(job.vertices.len(), 3);
}

#[test]
fn submit_replaces_the_shapes_and_queues_the_batch() {
    let mut painter = Painter::default();
    painter.submit(meshes(vec![quad(1), quad(2)]), empty_delta());
    painter.submit(meshes(vec![quad(3)]), empty_delta());
    assert_eq!(painter.shapes().len(), 1);
    assert_eq!(painter.pending_deltas(), 2);
}
