use render_core::fullscreen_buffers::{depth_min_max_extent, depth_min_max_size};
use render_core::gpu::targets::{
    GbufferSet, Target, TextureFormat, BLOOM_MIP_COUNT, BLOOM_MIP_LEVELS, TARGET_COUNT,
};

#[test]
fn bloom_mips_of_full_hd() {
    let set = GbufferSet::new(1920, 1080);
    let sizes: Vec<(u32, u32)> = (0..BLOOM_MIP_COUNT).map(|i| set.bloom_mip_size(i)).collect();
    assert_eq!(
        sizes,
        vec![(960, 540), (480, 270), (240, 135), (120, 67), (60, 33), (60, 33)]
    );
}

#[test]
fn bloom_mip_is_shifted_extent_and_at_least_one() {
    for (w, h) in [(1920u32, 1080u32), (800, 600), (1024, 768), (1, 1), (3, 70), (0, 5)] {
        let set = GbufferSet::new(w, h);
        for i in 0..BLOOM_MIP_LEVELS {
            let shift = (i + 1) as u32;
            assert_eq!(
                set.bloom_mip_size(i),
                ((w >> shift).max(1), (h >> shift).max(1))
            );
        }
        assert_eq!(set.bloom_mip_size(5), set.bloom_mip_size(4));
        assert_eq!(set.bloom_mip_size(1000), set.bloom_mip_size(4));
    }
}

#[test]
fn tiny_targets_keep_one_texel() {
    let set = GbufferSet::new(3, 70);
    assert_eq!(set.bloom_mip_size(0), (1, 35));
    assert_eq!(set.bloom_mip_size(4), (1, 2));
}

#[test]
fn set_lists_twelve_textures_in_slot_order() {
    let set = GbufferSet::new(800, 600);
    let textures = set.textures();
    assert_eq!(textures.len(), TARGET_COUNT);
    let targets: Vec<Target> = textures.iter().map(|t| t.target).collect();
    assert_eq!(
        targets,
        vec![
            Target::Color,
            Target::Depth,
            Target::Velocity,
            Target::Resolve,
            Target::History(0),
            Target::History(1),
            Target::BloomMip(0),
            Target::BloomMip(1),
            Target::BloomMip(2),
            Target::BloomMip(3),
            Target::BloomMip(4),
            Target::BloomMip(5),
        ]
    );
    for t in &textures[..6] {
        assert_eq!((t.width, t.height), (800, 600));
    }
    assert_eq!(textures[1].format, TextureFormat::Depth32Float);
    assert_eq!(textures[2].format, TextureFormat::Rg16Float);
    assert_eq!(textures[0].format, TextureFormat::Rgba16Float);
    assert_eq!(textures[6].format, TextureFormat::Rgba16Float);
    assert_eq!((textures[6].width, textures[6].height), (400, 300));
    assert_eq!((textures[10].width, textures[10].height), (25, 18));
    assert_eq!((textures[11].width, textures[11].height), (25, 18));
}

#[test]
fn texture_lookup_by_target() {
    let set = GbufferSet::new(1024, 768);
    assert_eq!(set.width(), 1024);
    assert_eq!(set.height(), 768);
    let history = set.texture(Target::History(1)).unwrap();
    assert_eq!(history.target, Target::History(1));
    assert_eq!((history.width, history.height), (1024, 768));
    let lens = set.texture(Target::BloomMip(5)).unwrap();
    assert_eq!((lens.width, lens.height), (32, 24));
    assert!(set.texture(Target::History(2)).is_none());
    assert!(set.texture(Target::BloomMip(6)).is_none());
    assert!(set.texture(Target::Swapchain).is_none());
    assert!(set.texture(Target::MainDepth).is_none());
}

#[test]
fn depth_chain_halves_and_rounds_up() {
    assert_eq!(
        (1..=4).map(|level| depth_min_max_size(1920, 1080, level)).collect::<Vec<_>>(),
        vec![(960, 540), (480, 270), (240, 135), (120, 68)]
    );
    assert_eq!(depth_min_max_extent(0, 3), 0);
    assert_eq!(depth_min_max_extent(1, 4), 1);
    assert_eq!(depth_min_max_extent(17, 4), 2);
    assert_eq!(depth_min_max_extent(16, 4), 1);
    assert_eq!(depth_min_max_extent(i32::MAX, 1), 1 << 30);
    assert_eq!(depth_min_max_extent(-1, 1), 0);
    assert_eq!(depth_min_max_extent(-2, 1), -1);
    assert_eq!(depth_min_max_extent(-17, 4), -1);
    assert_eq!(depth_min_max_extent(i32::MIN, 4), i32::MIN >> 4);
    assert_eq!(depth_min_max_extent(i32::MAX, 4), 1 << 27);
    assert_eq!(depth_min_max_size(-5, 9, 2), (-1, 3));
    for full in -200..200 {
        for level in 1..=4u32 {
            let expected = (full >> level) + ((full & ((1 << level) - 1)) != 0) as i32;
            assert_eq!(depth_min_max_extent(full, level), expected);
        }
    }
}
