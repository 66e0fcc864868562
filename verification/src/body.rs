//! What the run control reads of the rigid body: the parameters that decide
//! whether it can be simulated, and the state whose components must stay
//! finite. Every number is a binary32 pattern.

use vstd::prelude::*;

use crate::binary32::{all_finite, every_finite, is_positive, positive};

verus! {

/// Why a body cannot be simulated.
#[derive(Clone, Copy, Debug, PartialEq, Eq, Structural)]
pub enum ConfigError {
    /// The edge length is not a number greater than zero.
    NonPositiveSize,
    /// The density is not a number greater than zero.
    NonPositiveDensity,
    /// The inertia tensor has no inverse.
    SingularInertia,
}

/// The body as configured before a run.
#[derive(Clone, Copy, Debug, PartialEq, Eq, Structural)]
pub struct Configuration {
    /// The edge length of the cube.
    pub size: u32,
    /// The density of the cube.
    pub density: u32,
    /// Whether the inertia tensor about the pivot could be inverted.
    pub inertia_invertible: bool,
}

/// Orientation and angular velocity at one instant.
#[derive(Clone, Copy, Debug)]
pub struct RigidBodyState {
    /// The quaternion that turns the pivot frame into the world frame.
    pub orientation: [u32; 4],
    /// The angular velocity in the pivot frame.
    pub angular_velocity: [u32; 3],
}

impl Configuration {
    /// The first fault of the configuration, if it has one: size before
    /// density before inertia.
    pub open spec fn fault(self) -> Option<ConfigError> {
        if !is_positive(self.size) {
            Some(ConfigError::NonPositiveSize)
        } else if !is_positive(self.density) {
            Some(ConfigError::NonPositiveDensity)
        } else if !self.inertia_invertible {
            Some(ConfigError::SingularInertia)
        } else {
            None
        }
    }

    /// `Ok` for a body that can be simulated, else its first fault.
    pub fn validate(&self) -> (verdict: Result<(), ConfigError>)
        ensures
            verdict == match self.fault() {
                Some(error) => Err::<(), ConfigError>(error),
                None => Ok::<(), ConfigError>(()),
            },
    {
        if !positive(self.size) {
            Err(ConfigError::NonPositiveSize)
        } else if !positive(self.density) {
            Err(ConfigError::NonPositiveDensity)
        } else if !self.inertia_invertible {
            Err(ConfigError::SingularInertia)
        } else {
            Ok(())
        }
    }
}

impl RigidBodyState {
    /// No component is an infinity or a NaN.
    pub open spec fn finite(self) -> bool {
        all_finite(self.orientation@) && all_finite(self.angular_velocity@)
    }

    /// Whether the state is free of infinities and NaNs.
    pub fn is_finite(&self) -> (answer: bool)
        ensures
            answer == self.finite(),
    {
        every_finite(self.orientation.as_slice()) && every_finite(self.angular_velocity.as_slice())
    }
}

} // verus!
