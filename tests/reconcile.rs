use std::collections::HashMap;

use bevy_image_config::config::{
    apply_config, AddressMode, FilterMode, ImageSampler, ImageSamplerConfig,
};
use bevy_image_config::reconcile::{Application, ConfigEvent, ImageConfigs, ImageEvent};

/// The host's side: resident images and loaded documents.
struct Host {
    images: HashMap<u64, ImageSampler>,
    configs: HashMap<u64, ImageSamplerConfig>,
}

impl Host {
    fn new() -> Host {
        Host { images: HashMap::new(), configs: HashMap::new() }
    }

    fn cycle(&mut self, table: &mut ImageConfigs, ie: Vec<ImageEvent>, ce: Vec<ConfigEvent>) {
        for a in table.config_image(&ie, &ce) {
            if let (Some(s), Some(c)) = (self.images.get_mut(&a.image), self.configs.get(&a.config)) {
                apply_config(s, c);
            }
        }
    }
}

const A_PNG: u64 = 1;
const A_CFG: u64 = 100;

fn linear_repeat() -> ImageSamplerConfig {
    let mut c = ImageSamplerConfig::default();
    c.mag_filter = FilterMode::Linear;
    c.address_mode_u = AddressMode::Repeat;
    c
}

#[test]
fn image_without_sibling_keeps_default_state() {
    let mut host = Host::new();
    let mut table = ImageConfigs::new();
    host.images.insert(A_PNG, ImageSampler::Default);
    host.cycle(
        &mut table,
        vec![ImageEvent::Created { image: A_PNG, sibling_config: None }],
        vec![],
    );
    assert_eq!(table.config_for_image(A_PNG), None);
    assert_eq!(host.images[&A_PNG], ImageSampler::Default);
}

#[test]
fn config_loaded_after_image_is_applied() {
    let mut host = Host::new();
    let mut table = ImageConfigs::new();
    host.images.insert(A_PNG, ImageSampler::Default);
    host.cycle(
        &mut table,
        vec![ImageEvent::Created { image: A_PNG, sibling_config: Some(A_CFG) }],
        vec![],
    );
    assert_eq!(table.config_for_image(A_PNG), Some(A_CFG));
    assert_eq!(host.images[&A_PNG], ImageSampler::Default);
    host.configs.insert(A_CFG, linear_repeat());
    host.cycle(&mut table, vec![], vec![ConfigEvent::Created { config: A_CFG }]);
    match host.images[&A_PNG] {
        ImageSampler::Descriptor(d) => {
            assert_eq!(d.mag_filter, FilterMode::Linear);
            assert_eq!(d.address_mode_u, AddressMode::Repeat);
            assert_eq!(d.address_mode_v, AddressMode::ClampToEdge);
            assert_eq!(d.address_mode_w, AddressMode::ClampToEdge);
            assert_eq!(d.min_filter, FilterMode::Nearest);
            assert_eq!(d.mipmap_filter, FilterMode::Nearest);
            assert_eq!(d.lod_min_clamp_bits, 0);
            assert_eq!(d.lod_max_clamp_bits, 0);
            assert_eq!(d.compare, None);
            assert_eq!(d.anisotropy_clamp, None);
            assert_eq!(d.border_color, None);
        }
        ImageSampler::Default => panic!("the configuration was not applied"),
    }
}

#[test]
fn modified_config_is_reapplied() {
    let mut host = Host::new();
    let mut table = ImageConfigs::new();
    host.images.insert(A_PNG, ImageSampler::Default);
    host.configs.insert(A_CFG, linear_repeat());
    host.cycle(
        &mut table,
        vec![ImageEvent::Created { image: A_PNG, sibling_config: Some(A_CFG) }],
        vec![ConfigEvent::Created { config: A_CFG }],
    );
    let mut changed = ImageSamplerConfig::default();
    changed.min_filter = FilterMode::Linear;
    host.configs.insert(A_CFG, changed);
    host.cycle(&mut table, vec![], vec![ConfigEvent::Modified { config: A_CFG }]);
    assert_eq!(host.images[&A_PNG], changed.get_sampler_descriptor());
}

#[test]
fn removed_image_leaves_no_linkage() {
    let mut host = Host::new();
    let mut table = ImageConfigs::new();
    host.images.insert(A_PNG, ImageSampler::Default);
    host.cycle(
        &mut table,
        vec![ImageEvent::Created { image: A_PNG, sibling_config: Some(A_CFG) }],
        vec![],
    );
    host.images.remove(&A_PNG);
    host.cycle(&mut table, vec![ImageEvent::Removed { image: A_PNG }], vec![]);
    assert_eq!(table.config_for_image(A_PNG), None);
    assert_eq!(table.image_for_config(A_CFG), None);
    host.configs.insert(A_CFG, linear_repeat());
    let applied = table.config_image(&vec![], &vec![ConfigEvent::Created { config: A_CFG }]);
    assert!(applied.is_empty());
}

#[test]
fn config_that_never_loads_leaves_default_state() {
    let mut host = Host::new();
    let mut table = ImageConfigs::new();
    host.images.insert(A_PNG, ImageSampler::Default);
    host.cycle(
        &mut table,
        vec![ImageEvent::Created { image: A_PNG, sibling_config: Some(A_CFG) }],
        vec![],
    );
    host.cycle(&mut table, vec![], vec![]);
    assert_eq!(table.config_for_image(A_PNG), Some(A_CFG));
    assert_eq!(host.images[&A_PNG], ImageSampler::Default);
}

#[test]
fn removed_config_unlinks_and_keeps_applied_state() {
    let mut host = Host::new();
    let mut table = ImageConfigs::new();
    host.images.insert(A_PNG, ImageSampler::Default);
    host.configs.insert(A_CFG, linear_repeat());
    host.cycle(
        &mut table,
        vec![ImageEvent::Created { image: A_PNG, sibling_config: Some(A_CFG) }],
        vec![ConfigEvent::Created { config: A_CFG }, ConfigEvent::Removed { config: A_CFG }],
    );
    assert_eq!(table.config_for_image(A_PNG), None);
    assert_eq!(host.images[&A_PNG], linear_repeat().get_sampler_descriptor());
}

#[test]
fn applications_follow_event_order() {
    let mut table = ImageConfigs::new();
    let out = table.config_image(
        &vec![
            ImageEvent::Created { image: 1, sibling_config: Some(10) },
            ImageEvent::Created { image: 2, sibling_config: Some(20) },
            ImageEvent::Modified { image: 1 },
        ],
        &vec![
            ConfigEvent::Modified { config: 20 },
            ConfigEvent::Created { config: 30 },
            ConfigEvent::Removed { config: 20 },
            ConfigEvent::Created { config: 20 },
            ConfigEvent::Created { config: 10 },
        ],
    );
    assert_eq!(
        out,
        vec![Application { image: 2, config: 20 }, Application { image: 1, config: 10 }]
    );
}

#[test]
fn config_event_for_unresident_image_is_requested_but_not_queued() {
    let mut host = Host::new();
    let mut table = ImageConfigs::new();
    host.configs.insert(A_CFG, linear_repeat());
    host.cycle(
        &mut table,
        vec![ImageEvent::Created { image: A_PNG, sibling_config: Some(A_CFG) }],
        vec![ConfigEvent::Created { config: A_CFG }],
    );
    host.images.insert(A_PNG, ImageSampler::Default);
    host.cycle(&mut table, vec![], vec![]);
    assert_eq!(host.images[&A_PNG], ImageSampler::Default);
}

#[test]
fn default_configs_hold_no_associations() {
    let table = ImageConfigs::default();
    assert_eq!(table.config_for_image(A_PNG), None);
    assert_eq!(table.image_for_config(A_CFG), None);
}
