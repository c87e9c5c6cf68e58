use std::cell::Cell;

use render_core::cache::{CacheKey, CacheValue, ResourceCache, TextureSource};
use render_core::get_type::RenderableKind;
use render_core::my_pipeline::{MyPipeline, PipelineKind};
use render_core::render_passes::RenderPassType;
use render_core::secondary::bind_group_code;

#[test]
fn pipeline_built_at_most_once() {
    let mut cache = ResourceCache::new();
    let count = Cell::new(0u32);
    let v1 = cache.get_or_create(CacheKey::Pipeline(PipelineKind::Default), |id| {
        count.set(count.get() + 1);
        CacheValue::Pipeline(MyPipeline { pipeline: id, render_pass_builder: RenderPassType::Opaque3D })
    });
    let v2 = cache.get_or_create(CacheKey::Pipeline(PipelineKind::Default), |id| {
        count.set(count.get() + 1);
        CacheValue::Pipeline(MyPipeline { pipeline: id, render_pass_builder: RenderPassType::Opaque3D })
    });
    assert_eq!(count.get(), 1);
    assert_eq!(v1, v2);
    assert_eq!(cache.len(), 1);
}

#[test]
fn distinct_kinds_get_distinct_handles() {
    let mut cache = ResourceCache::new();
    let v1 = cache.get_or_create(
        CacheKey::VertexBuffer(RenderableKind::Cube),
        CacheValue::VertexBuffer,
    );
    let v2 = cache.get_or_create(
        CacheKey::VertexBuffer(RenderableKind::Skybox),
        CacheValue::VertexBuffer,
    );
    assert_ne!(v1, v2);
    assert_eq!(cache.len(), 2);
}

#[test]
fn texture_keys_compare_by_path() {
    let mut cache = ResourceCache::new();
    let v1 = cache.get_or_create(
        CacheKey::Texture(TextureSource::FilePath(String::from("assets/grass.png"))),
        CacheValue::Texture,
    );
    let v2 = cache.get_or_create(
        CacheKey::Texture(TextureSource::FilePath(String::from("assets/grass.png"))),
        CacheValue::Texture,
    );
    let v3 = cache.get_or_create(
        CacheKey::Texture(TextureSource::FilePath(String::from("assets/stone.png"))),
        CacheValue::Texture,
    );
    assert_eq!(v1, v2);
    assert_ne!(v1, v3);
    // A cube-map directory never collides with a flat file of the same name.
    let v4 = cache.get_or_create(
        CacheKey::Texture(TextureSource::CubeDirectory(String::from("assets/grass.png"))),
        CacheValue::Texture,
    );
    assert_ne!(v1, v4);
}

#[test]
fn lookup_reports_only_present_keys() {
    let mut cache = ResourceCache::new();
    assert!(cache.lookup(&CacheKey::Pipeline(PipelineKind::Ui)).is_none());
    let v = cache.get_or_create(CacheKey::Pipeline(PipelineKind::Ui), |id| {
        CacheValue::Pipeline(MyPipeline { pipeline: id, render_pass_builder: RenderPassType::UI })
    });
    assert_eq!(cache.lookup(&CacheKey::Pipeline(PipelineKind::Ui)), Some(v));
    assert!(cache.lookup(&CacheKey::Pipeline(PipelineKind::Default)).is_none());
}

#[test]
fn alloc_id_never_repeats() {
    let mut cache = ResourceCache::new();
    let a = cache.alloc_id();
    let b = cache.alloc_id();
    let v = cache.get_or_create(
        CacheKey::IndexBuffer(RenderableKind::Ui),
        CacheValue::IndexBuffer,
    );
    let c = cache.alloc_id();
    assert_ne!(a, b);
    assert_ne!(b, c);
    match v {
        CacheValue::IndexBuffer(h) => {
            assert_ne!(h, a);
            assert_ne!(h, b);
            assert_ne!(h, c);
        },
        _ => panic!("wrong category"),
    }
}

#[test]
fn bind_group_codes_do_not_collide() {
    let mut seen = Vec::new();
    let pipelines = [PipelineKind::Default, PipelineKind::Skybox, PipelineKind::Ui];
    let kinds = [RenderableKind::Cube, RenderableKind::Skybox, RenderableKind::Ui];
    for p in pipelines {
        for r in kinds {
            for index in [0u32, 1, 77] {
                let code = bind_group_code(p, r, index);
                assert!(!seen.contains(&code));
                seen.push(code);
            }
        }
    }
}
