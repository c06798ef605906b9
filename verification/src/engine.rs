//! Control state of the duplex engine: the device catalog with the
//! current selections, the processing flag, the two DSP enable flags,
//! and the liveness of the two hardware streams.
//!
//! The hardware itself (stream construction, callbacks, the periodic
//! task) is driven by the embedding program; every decision it needs —
//! which selection is valid, whether a stream must be stopped and
//! restarted after a selection change — is taken and specified here.

use vstd::prelude::*;

use crate::devices::DeviceInfo;
use crate::devices::initial_selection;
use crate::devices::is_initial_selection;

verus! {

/// Error taxonomy of the engine's control surface.
#[derive(Clone, Copy, Debug, PartialEq, Eq, Structural)]
pub enum AudioError {
    /// The platform could not enumerate its endpoints.
    DeviceEnumerationFailed,
    /// A direction had no usable endpoint at construction.
    NoDefaultDevice,
    /// A selection index was out of range; the operation was a no-op.
    InvalidDeviceIndex,
    /// The platform refused to open a hardware stream.
    StreamConstructionFailed,
}

/// What the platform layer must do to the hardware streams after a
/// control call: nothing, or stop exactly one direction's stream and
/// start exactly one new one against the newly selected endpoint.
#[derive(Clone, Copy, Debug, PartialEq, Eq, Structural)]
pub enum StreamAction {
    Keep,
    RestartCapture,
    RestartRender,
}

/// Hardware stream format, recorded when a capture stream starts;
/// authoritative only after that.
#[derive(Clone, Copy, Debug, PartialEq, Eq, Structural)]
pub struct StreamFormat {
    pub sample_rate: u32,
    pub channels: u16,
}

/// Control state of the engine.
pub struct AudioProcessor {
    input_devices: Vec<DeviceInfo>,
    output_devices: Vec<DeviceInfo>,
    selected_input_index: usize,
    selected_output_index: usize,
    stream_format: StreamFormat,
    processing: bool,
    echo_cancellation_enabled: bool,
    noise_reduction_enabled: bool,
    capture_running: bool,
    render_running: bool,
}

/// Both engines hold the same catalog and the same selections.
pub open spec fn same_catalog(a: AudioProcessor, b: AudioProcessor) -> bool {
    &&& a.inputs() == b.inputs()
    &&& a.outputs() == b.outputs()
    &&& a.input_sel() == b.input_sel()
    &&& a.output_sel() == b.output_sel()
}

/// Both engines hold the same DSP enable flags.
pub open spec fn same_toggles(a: AudioProcessor, b: AudioProcessor) -> bool {
    &&& a.echo_enabled() == b.echo_enabled()
    &&& a.noise_enabled() == b.noise_enabled()
}

/// Both engines agree on the processing flag, the stream liveness of
/// both directions, and the recorded format.
pub open spec fn same_run_state(a: AudioProcessor, b: AudioProcessor) -> bool {
    &&& a.is_processing_state() == b.is_processing_state()
    &&& a.capture_live() == b.capture_live()
    &&& a.render_live() == b.render_live()
    &&& a.format() == b.format()
}

impl AudioProcessor {
    #[verifier::type_invariant]
    spec fn inv(&self) -> bool {
        &&& self.input_devices@.len() > 0
        &&& self.output_devices@.len() > 0
        &&& self.selected_input_index < self.input_devices@.len()
        &&& self.selected_output_index < self.output_devices@.len()
    }

    /// The input catalog, in enumeration order.
    pub closed spec fn inputs(&self) -> Seq<DeviceInfo> {
        self.input_devices@
    }

    /// The output catalog, in enumeration order.
    pub closed spec fn outputs(&self) -> Seq<DeviceInfo> {
        self.output_devices@
    }

    /// Index of the selected input endpoint.
    pub closed spec fn input_sel(&self) -> int {
        self.selected_input_index as int
    }

    /// Index of the selected output endpoint.
    pub closed spec fn output_sel(&self) -> int {
        self.selected_output_index as int
    }

    /// Whether the processing pipeline has been started.
    pub closed spec fn is_processing_state(&self) -> bool {
        self.processing
    }

    /// Whether echo cancellation is enabled.
    pub closed spec fn echo_enabled(&self) -> bool {
        self.echo_cancellation_enabled
    }

    /// Whether noise reduction is enabled.
    pub closed spec fn noise_enabled(&self) -> bool {
        self.noise_reduction_enabled
    }

    /// Whether a capture stream is live.
    pub closed spec fn capture_live(&self) -> bool {
        self.capture_running
    }

    /// Whether a render stream is live.
    pub closed spec fn render_live(&self) -> bool {
        self.render_running
    }

    /// The recorded stream format.
    pub closed spec fn format(&self) -> StreamFormat {
        self.stream_format
    }

    /// Builds the engine over the enumerated catalogs. Construction is
    /// refused with `NoDefaultDevice` exactly when a direction has no
    /// endpoint at all; otherwise each direction starts on its first
    /// default-flagged endpoint (index 0 when none is flagged), nothing
    /// is running, and both DSP stages are enabled.
    pub fn new(input_devices: Vec<DeviceInfo>, output_devices: Vec<DeviceInfo>) -> (r: Result<
        AudioProcessor,
        AudioError,
    >)
        ensures
            match r {
                Ok(p) => {
                    &&& input_devices@.len() > 0
                    &&& output_devices@.len() > 0
                    &&& p.inputs() == input_devices@
                    &&& p.outputs() == output_devices@
                    &&& is_initial_selection(p.inputs(), p.input_sel())
                    &&& is_initial_selection(p.outputs(), p.output_sel())
                    &&& !p.is_processing_state()
                    &&& p.echo_enabled()
                    &&& p.noise_enabled()
                    &&& !p.capture_live()
                    &&& !p.render_live()
                    &&& p.format() == (StreamFormat { sample_rate: 48000, channels: 2 })
                },
                Err(e) => {
                    &&& e == AudioError::NoDefaultDevice
                    &&& (input_devices@.len() == 0 || output_devices@.len() == 0)
                },
            },
    {
        if input_devices.len() == 0 || output_devices.len() == 0 {
            return Err(AudioError::NoDefaultDevice);
        }
        let selected_input_index = initial_selection(&input_devices);
        let selected_output_index = initial_selection(&output_devices);
        Ok(
            AudioProcessor {
                input_devices,
                output_devices,
                selected_input_index,
                selected_output_index,
                stream_format: StreamFormat { sample_rate: 48000, channels: 2 },
                processing: false,
                echo_cancellation_enabled: true,
                noise_reduction_enabled: true,
                capture_running: false,
                render_running: false,
            },
        )
    }

    /// Catalog snapshot handed to the control panel.
    pub fn get_input_devices(&self) -> (r: &Vec<DeviceInfo>)
        ensures
            r@ == self.inputs(),
    {
        &self.input_devices
    }

    /// Catalog snapshot handed to the control panel.
    pub fn get_output_devices(&self) -> (r: &Vec<DeviceInfo>)
        ensures
            r@ == self.outputs(),
    {
        &self.output_devices
    }

    /// Index of the selected input endpoint; always in bounds.
    pub fn get_selected_input_index(&self) -> (r: usize)
        ensures
            r as int == self.input_sel(),
            r < self.inputs().len(),
    {
        proof {
            use_type_invariant(self);
        }
        self.selected_input_index
    }

    /// Index of the selected output endpoint; always in bounds.
    pub fn get_selected_output_index(&self) -> (r: usize)
        ensures
            r as int == self.output_sel(),
            r < self.outputs().len(),
    {
        proof {
            use_type_invariant(self);
        }
        self.selected_output_index
    }

    /// Whether the pipeline has been started and not stopped since.
    pub fn is_processing(&self) -> (r: bool)
        ensures
            r == self.is_processing_state(),
    {
        self.processing
    }

    /// Current echo-cancellation flag, read by the pipeline at each
    /// cycle start.
    pub fn get_echo_cancellation(&self) -> (r: bool)
        ensures
            r == self.echo_enabled(),
    {
        self.echo_cancellation_enabled
    }

    /// Current noise-reduction flag, read by the pipeline at each cycle
    /// start.
    pub fn get_noise_reduction(&self) -> (r: bool)
        ensures
            r == self.noise_enabled(),
    {
        self.noise_reduction_enabled
    }

    /// The format recorded by the last capture start.
    pub fn get_format(&self) -> (r: StreamFormat)
        ensures
            r == self.format(),
    {
        self.stream_format
    }

    pub fn set_echo_cancellation(&mut self, enabled: bool)
        ensures
            final(self).echo_enabled() == enabled,
            final(self).noise_enabled() == old(self).noise_enabled(),
            same_catalog(*final(self), *old(self)),
            same_run_state(*final(self), *old(self)),
    {
        proof {
            use_type_invariant(&*self);
        }
        self.echo_cancellation_enabled = enabled;
    }

    pub fn set_noise_reduction(&mut self, enabled: bool)
        ensures
            final(self).noise_enabled() == enabled,
            final(self).echo_enabled() == old(self).echo_enabled(),
            same_catalog(*final(self), *old(self)),
            same_run_state(*final(self), *old(self)),
    {
        proof {
            use_type_invariant(&*self);
        }
        self.noise_reduction_enabled = enabled;
    }

    /// Marks the pipeline running; the embedding program then spawns
    /// the periodic processing task.
    pub fn start_processing(&mut self)
        ensures
            final(self).is_processing_state(),
            final(self).capture_live() == old(self).capture_live(),
            final(self).render_live() == old(self).render_live(),
            final(self).format() == old(self).format(),
            same_catalog(*final(self), *old(self)),
            same_toggles(*final(self), *old(self)),
    {
        proof {
            use_type_invariant(&*self);
        }
        self.processing = true;
    }

    /// Records that a capture stream was started against the selected
    /// input endpoint, together with the hardware-reported format.
    pub fn note_capture_started(&mut self, format: StreamFormat)
        ensures
            final(self).capture_live(),
            final(self).format() == format,
            final(self).is_processing_state() == old(self).is_processing_state(),
            final(self).render_live() == old(self).render_live(),
            same_catalog(*final(self), *old(self)),
            same_toggles(*final(self), *old(self)),
    {
        proof {
            use_type_invariant(&*self);
        }
        self.capture_running = true;
        self.stream_format = format;
    }

    /// Records that a render stream was started against the selected
    /// output endpoint.
    pub fn note_render_started(&mut self)
        ensures
            final(self).render_live(),
            final(self).is_processing_state() == old(self).is_processing_state(),
            final(self).capture_live() == old(self).capture_live(),
            final(self).format() == old(self).format(),
            same_catalog(*final(self), *old(self)),
            same_toggles(*final(self), *old(self)),
    {
        proof {
            use_type_invariant(&*self);
        }
        self.render_running = true;
    }

    /// Stops the engine: the pipeline flag is cleared and both stream
    /// directions are marked torn down. Idempotent and never fails; the
    /// catalog, the selections and the DSP flags are untouched.
    pub fn stop(&mut self)
        ensures
            !final(self).is_processing_state(),
            !final(self).capture_live(),
            !final(self).render_live(),
            final(self).format() == old(self).format(),
            same_catalog(*final(self), *old(self)),
            same_toggles(*final(self), *old(self)),
    {
        proof {
            use_type_invariant(&*self);
        }
        self.processing = false;
        self.capture_running = false;
        self.render_running = false;
    }

    /// Selects the input endpoint at `index`. An out-of-range index is
    /// a non-fatal validation failure: the selection is left unchanged
    /// and `InvalidDeviceIndex` is returned. A valid index moves the
    /// selection; while the engine is processing the caller must stop
    /// the old capture stream and start one new one against the chosen
    /// endpoint, as the returned action says. The output direction and
    /// every buffer are untouched either way.
    pub fn set_input_device(&mut self, index: usize) -> (r: Result<StreamAction, AudioError>)
        ensures
            final(self).inputs() == old(self).inputs(),
            final(self).outputs() == old(self).outputs(),
            final(self).output_sel() == old(self).output_sel(),
            same_toggles(*final(self), *old(self)),
            same_run_state(*final(self), *old(self)),
            index < old(self).inputs().len() ==> {
                &&& final(self).input_sel() == index as int
                &&& r == Ok::<StreamAction, AudioError>(
                    if old(self).is_processing_state() {
                        StreamAction::RestartCapture
                    } else {
                        StreamAction::Keep
                    },
                )
            },
            index >= old(self).inputs().len() ==> {
                &&& final(self).input_sel() == old(self).input_sel()
                &&& r == Err::<StreamAction, AudioError>(AudioError::InvalidDeviceIndex)
            },
    {
        proof {
            use_type_invariant(&*self);
        }
        if index < self.input_devices.len() {
            self.selected_input_index = index;
            if self.processing {
                Ok(StreamAction::RestartCapture)
            } else {
                Ok(StreamAction::Keep)
            }
        } else {
            Err(AudioError::InvalidDeviceIndex)
        }
    }

    /// Selects the output endpoint at `index`, with the same validation
    /// as the input direction. While the engine is processing, the
    /// returned action has the caller stop exactly one render stream
    /// and start exactly one new one; the capture direction — its
    /// stream, its selection and the microphone buffer — is unaffected.
    pub fn set_output_device(&mut self, index: usize) -> (r: Result<StreamAction, AudioError>)
        ensures
            final(self).inputs() == old(self).inputs(),
            final(self).outputs() == old(self).outputs(),
            final(self).input_sel() == old(self).input_sel(),
            same_toggles(*final(self), *old(self)),
            same_run_state(*final(self), *old(self)),
            index < old(self).outputs().len() ==> {
                &&& final(self).output_sel() == index as int
                &&& r == Ok::<StreamAction, AudioError>(
                    if old(self).is_processing_state() {
                        StreamAction::RestartRender
                    } else {
                        StreamAction::Keep
                    },
                )
            },
            index >= old(self).outputs().len() ==> {
                &&& final(self).output_sel() == old(self).output_sel()
                &&& r == Err::<StreamAction, AudioError>(AudioError::InvalidDeviceIndex)
            },
    {
        proof {
            use_type_invariant(&*self);
        }
        if index < self.output_devices.len() {
            self.selected_output_index = index;
            if self.processing {
                Ok(StreamAction::RestartRender)
            } else {
                Ok(StreamAction::Keep)
            }
        } else {
            Err(AudioError::InvalidDeviceIndex)
        }
    }
}

} // verus!
