//! Keeping the user's settings and writing them back only when they may have
//! changed.
use vstd::prelude::*;

verus! {

/// Whether the file browser lists video files only, unless the settings say
/// otherwise.
pub fn default_show_video_files_only() -> (r: bool)
    ensures
        r,
{
    true
}

/// Whether the file browser lists hidden files, unless the settings say
/// otherwise.
pub fn default_show_hidden_files() -> (r: bool)
    ensures
        !r,
{
    false
}

/// Settings, with whether they were handed out for writing since the last
/// save.
pub struct ConfigSyncer<C> {
    config: C,
    dirty: bool,
}

impl<C> ConfigSyncer<C> {
    pub closed spec fn config(&self) -> C {
        self.config
    }

    /// The settings may differ from those last saved.
    pub closed spec fn is_dirty(&self) -> bool {
        self.dirty
    }

    pub fn new(config: C) -> (r: ConfigSyncer<C>)
        ensures
            r.config() == config,
            !r.is_dirty(),
    {
        ConfigSyncer { config, dirty: false }
    }

    /// The settings, for reading.
    pub fn get(&self) -> (r: &C)
        ensures
            *r == self.config(),
    {
        &self.config
    }

    /// The settings, for writing: they count as changed from here on.
    pub fn get_mut(&mut self) -> (r: &mut C)
        ensures
            *r == old(self).config(),
            final(self).config() == *final(r),
            final(self).is_dirty(),
    {
        self.dirty = true;
        &mut self.config
    }

    /// Saves the settings with `save` if they may have changed since the last
    /// save, and says whether it did.
    pub fn save_maybe<F: FnOnce(&C)>(&mut self, save: F) -> (saved: bool)
        requires
            save.requires((&old(self).config(),)),
        ensures
            saved == old(self).is_dirty(),
            !final(self).is_dirty(),
            final(self).config() == old(self).config(),
    {
        if !self.dirty {
            return false;
        }
        self.dirty = false;
        save(&self.config);
        true
    }
}

} // verus!
