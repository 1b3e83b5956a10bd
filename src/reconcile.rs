//! The per-cycle reconciliation of image and configuration lifecycle events.
use vstd::prelude::*;
use crate::table::{AssociationTable, config_of, image_of, linked, no_pairs, without_config};

verus! {

/// A lifecycle event of an image asset.
#[derive(Copy, Clone, Debug, PartialEq, Eq, Structural)]
pub enum ImageEvent {
    /// The image was loaded. `sibling_config` is the configuration that the host began
    /// loading from the image's sibling document, when the image has a source path and
    /// that document exists.
    Created { image: u64, sibling_config: Option<u64> },
    Modified { image: u64 },
    Removed { image: u64 },
}

/// A lifecycle event of a configuration document asset.
#[derive(Copy, Clone, Debug, PartialEq, Eq, Structural)]
pub enum ConfigEvent {
    Created { config: u64 },
    Modified { config: u64 },
    Removed { config: u64 },
}

/// A request to overwrite the sampler state of `image`, if it is resident, with what the
/// loaded document `config` gives.
#[derive(Copy, Clone, Debug, PartialEq, Eq, Structural)]
pub struct Application {
    pub image: u64,
    pub config: u64,
}

/// The association after one image event.
pub open spec fn after_image_event(m: Map<u64, u64>, event: ImageEvent) -> Map<u64, u64> {
    match event {
        ImageEvent::Created { image, sibling_config } => match sibling_config {
            Some(config) => linked(m, image, config),
            None => m,
        },
        ImageEvent::Modified { .. } => m,
        ImageEvent::Removed { image } => m.remove(image),
    }
}

/// The association after image events, taken in order.
pub open spec fn after_image_events(m: Map<u64, u64>, events: Seq<ImageEvent>) -> Map<u64, u64>
    decreases events.len(),
{
    if events.len() == 0 {
        m
    } else {
        after_image_event(after_image_events(m, events.drop_last()), events.last())
    }
}

/// The association after one configuration event.
pub open spec fn after_config_event(m: Map<u64, u64>, event: ConfigEvent) -> Map<u64, u64> {
    match event {
        ConfigEvent::Removed { config } => without_config(m, config),
        _ => m,
    }
}

/// What one configuration event asks to apply: a created or modified document that is
/// associated with an image goes onto that image.
pub open spec fn application_of(m: Map<u64, u64>, event: ConfigEvent) -> Option<Application> {
    match event {
        ConfigEvent::Created { config } | ConfigEvent::Modified { config } => match image_of(
            m,
            config,
        ) {
            Some(image) => Some(Application { image, config }),
            None => None,
        },
        ConfigEvent::Removed { .. } => None,
    }
}

/// The association after configuration events, taken in order.
pub open spec fn after_config_events(m: Map<u64, u64>, events: Seq<ConfigEvent>) -> Map<
    u64,
    u64,
>
    decreases events.len(),
{
    if events.len() == 0 {
        m
    } else {
        after_config_event(after_config_events(m, events.drop_last()), events.last())
    }
}

/// What configuration events, taken in order, ask to apply.
pub open spec fn applications(m: Map<u64, u64>, events: Seq<ConfigEvent>) -> Seq<Application>
    decreases events.len(),
{
    if events.len() == 0 {
        Seq::empty()
    } else {
        let before = applications(m, events.drop_last());
        match application_of(after_config_events(m, events.drop_last()), events.last()) {
            Some(a) => before.push(a),
            None => before,
        }
    }
}

/// The associations between images and their configuration documents.
pub struct ImageConfigs {
    table: AssociationTable,
}

impl View for ImageConfigs {
    type V = Map<u64, u64>;

    closed spec fn view(&self) -> Map<u64, u64> {
        self.table@
    }
}

impl Default for ImageConfigs {
    /// No associations.
    fn default() -> (r: ImageConfigs)
        ensures
            r.wf(),
            r@ == no_pairs(),
    {
        ImageConfigs::new()
    }
}

impl ImageConfigs {
    pub closed spec fn wf(&self) -> bool {
        self.table.wf()
    }

    /// No associations.
    pub fn new() -> (r: ImageConfigs)
        ensures
            r.wf(),
            r@ == no_pairs(),
    {
        ImageConfigs { table: AssociationTable::new() }
    }

    /// The configuration associated with `image`.
    pub fn config_for_image(&self, image: u64) -> (r: Option<u64>)
        ensures
            r == config_of(self@, image),
    {
        self.table.config_for_image(image)
    }

    /// The image associated with `config`.
    pub fn image_for_config(&self, config: u64) -> (r: Option<u64>)
        requires
            self.wf(),
        ensures
            r == image_of(self@, config),
    {
        self.table.image_for_config(config)
    }

    /// Takes one image event into the association.
    pub fn handle_image_event(&mut self, event: ImageEvent)
        requires
            old(self).wf(),
        ensures
            final(self).wf(),
            final(self)@ == after_image_event(old(self)@, event),
    {
        match event {
            ImageEvent::Created { image, sibling_config } => {
                if let Some(config) = sibling_config {
                    self.table.insert(image, config);
                }
            },
            ImageEvent::Modified { .. } => {},
            ImageEvent::Removed { image } => {
                self.table.remove_by_image(image);
            },
        }
    }

    /// Takes one configuration event into the association, and returns what it asks to
    /// apply.
    pub fn handle_config_event(&mut self, event: ConfigEvent) -> (r: Option<Application>)
        requires
            old(self).wf(),
        ensures
            final(self).wf(),
            final(self)@ == after_config_event(old(self)@, event),
            r == application_of(old(self)@, event),
    {
        match event {
            ConfigEvent::Created { config } | ConfigEvent::Modified { config } => {
                match self.table.image_for_config(config) {
                    Some(image) => Some(Application { image, config }),
                    None => None,
                }
            },
            ConfigEvent::Removed { config } => {
                self.table.remove_by_config(config);
                None
            },
        }
    }

    /// One reconciliation cycle: drains the image events, then the configuration
    /// events, each in order, and returns the applications they ask for, in order.
    pub fn config_image(
        &mut self,
        image_events: &Vec<ImageEvent>,
        config_events: &Vec<ConfigEvent>,
    ) -> (r: Vec<Application>)
        requires
            old(self).wf(),
        ensures
            final(self).wf(),
            final(self)@ == after_config_events(
                after_image_events(old(self)@, image_events@),
                config_events@,
            ),
            r@ == applications(after_image_events(old(self)@, image_events@), config_events@),
    {
        let ghost start = self@;
        let mut i: usize = 0;
        while i < image_events.len()
            invariant
                self.wf(),
                i <= image_events@.len(),
                self@ == after_image_events(start, image_events@.take(i as int)),
            decreases image_events@.len() - i,
        {
            proof {
                assert(image_events@.take(i + 1).drop_last() == image_events@.take(i as int));
            }
            self.handle_image_event(image_events[i]);
            i = i + 1;
        }
        proof {
            assert(image_events@.take(i as int) == image_events@);
        }
        let ghost mid = self@;
        let mut out: Vec<Application> = Vec::new();
        let mut j: usize = 0;
        while j < config_events.len()
            invariant
                self.wf(),
                j <= config_events@.len(),
                self@ == after_config_events(mid, config_events@.take(j as int)),
                out@ == applications(mid, config_events@.take(j as int)),
            decreases config_events@.len() - j,
        {
            proof {
                assert(config_events@.take(j + 1).drop_last() == config_events@.take(j as int));
            }
            if let Some(a) = self.handle_config_event(config_events[j]) {
                out.push(a);
            }
            j = j + 1;
        }
        proof {
            assert(config_events@.take(j as int) == config_events@);
        }
        out
    }
}

} // verus!
