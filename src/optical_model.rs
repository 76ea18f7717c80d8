//! The optical model orchestrator: what the optics engine is asked to do at
//! every step, and the detector exposure it accumulates.
//!
//! The engine that traces rays and images them is driven from outside this
//! crate: each step, [`GmtOpticalModel::ray_trace`] returns the ordered
//! actions it must perform, and the image it forms is handed back with
//! [`GmtOpticalModel::expose`].
use std::rc::Rc;
use vstd::prelude::*;

use crate::config::Config;
use crate::psfs::{PSFs, FRAME_LEN, PSF};
use crate::windloads::{WindLoads, M1_RBM_DOF};

verus! {

/// One operation of the optics engine.
pub enum Action<T> {
    /// Move the primary mirror by the first rigid-body motions and the
    /// secondary mirror by the second.
    UpdateRigidBodyMotions(Vec<T>, Vec<T>),
    /// Trace the source's wavefront through the telescope to its exit pupil.
    PropagateToPupil,
    /// Add a wavefront-error map to the source's wavefront.
    AddWavefront(Vec<T>),
    /// Image the source's wavefront onto the detector.
    PropagateToDetector,
}

/// What an [`Action`] asks for, over sequences.
pub enum Step<T> {
    UpdateRigidBodyMotions(Seq<T>, Seq<T>),
    PropagateToPupil,
    AddWavefront(Seq<T>),
    PropagateToDetector,
}

impl<T> View for Action<T> {
    type V = Step<T>;

    open spec fn view(&self) -> Step<T> {
        match self {
            Action::UpdateRigidBodyMotions(m1, m2) => Step::UpdateRigidBodyMotions(m1@, m2@),
            Action::PropagateToPupil => Step::PropagateToPupil,
            Action::AddWavefront(opd) => Step::AddWavefront(opd@),
            Action::PropagateToDetector => Step::PropagateToDetector,
        }
    }
}

/// The steps of one advance: the mirrors move by the structural-motion
/// sample, if any, before the wavefront reaches the pupil; the
/// wavefront-error map, if any, is added after it and before imaging.
pub open spec fn plan<T>(rbms: Option<Seq<T>>, opd: Option<Seq<T>>) -> Seq<Step<T>> {
    let motion = match rbms {
        Some(c) => seq![
            Step::UpdateRigidBodyMotions(
                c.take(M1_RBM_DOF as int),
                c.skip(M1_RBM_DOF as int),
            ),
        ],
        None => Seq::empty(),
    };
    let wavefront = match opd {
        Some(o) => seq![Step::AddWavefront(o)],
        None => Seq::empty(),
    };
    motion + seq![Step::PropagateToPupil] + wavefront + seq![Step::PropagateToDetector]
}

/// The sequence a vector holds, if any.
pub open spec fn seq_of<T>(o: Option<Vec<T>>) -> Option<Seq<T>> {
    match o {
        Some(v) => Some(v@),
        None => None,
    }
}

/// The sample an attached structural-motion driver yields next, if any.
pub open spec fn next_sample<T: Copy>(windloads: Option<WindLoads<T>>) -> Option<Seq<T>> {
    match windloads {
        Some(w) => if w.pending().len() > 0 {
            Some(w.pending()[0])
        } else {
            None
        },
        None => None,
    }
}

/// Whether `after` is the driver `before` becomes once it has yielded its
/// next sample, if any.
pub open spec fn advanced<T: Copy>(before: Option<WindLoads<T>>, after: Option<WindLoads<T>>) -> bool {
    match (before, after) {
        (Some(b), Some(a)) => {
            &&& a.wf()
            &&& a.columns() == b.columns()
            &&& a.pending() == if b.pending().len() > 0 {
                b.pending().drop_first()
            } else {
                b.pending()
            }
        },
        (None, None) => true,
        _ => false,
    }
}

/// A frame whose pixels are all 0.
pub open spec fn dark_frame() -> Seq<u32> {
    Seq::new(FRAME_LEN as nat, |p: int| 0u32)
}

/// Errors of adding an image to the detector's exposure.
#[derive(Debug, Clone, Copy, PartialEq, Eq, Structural)]
pub enum ExposureError {
    /// The image does not have the detector's number of pixels.
    FrameSize,
    /// A pixel of the exposure would exceed the largest intensity.
    Saturated,
}

/// The telescope model: its detector exposure, its configuration, and the
/// perturbation sources attached to it.
pub struct GmtOpticalModel<T> {
    detector: Vec<u32>,
    domeseeing: bool,
    windloads: Option<WindLoads<T>>,
    config: Rc<Config>,
}

impl<T: Copy> GmtOpticalModel<T> {
    /// The exposure accumulated on the detector since it was last read.
    pub closed spec fn detector(&self) -> Seq<u32> {
        self.detector@
    }

    /// Whether a wavefront-error source is attached.
    pub closed spec fn has_domeseeing(&self) -> bool {
        self.domeseeing
    }

    /// The structural-motion driver, if one is attached.
    pub closed spec fn windloads_driver(&self) -> Option<WindLoads<T>> {
        self.windloads
    }

    pub closed spec fn configuration(&self) -> Rc<Config> {
        self.config
    }

    pub closed spec fn wf(&self) -> bool {
        &&& self.detector@.len() == FRAME_LEN
        &&& self.windloads matches Some(w) ==> w.wf()
    }

    /// A model with a dark detector and no perturbation source.
    pub fn new(config: &Rc<Config>) -> (r: Self)
        ensures
            r.wf(),
            r.detector() == dark_frame(),
            !r.has_domeseeing(),
            r.windloads_driver() is None,
            r.configuration() == *config,
    {
        GmtOpticalModel {
            detector: dark(),
            domeseeing: false,
            windloads: None,
            config: config.clone(),
        }
    }

    /// The shared rendering configuration.
    pub fn get_config(&self) -> (r: Rc<Config>)
        ensures
            r == self.configuration(),
    {
        self.config.clone()
    }

    /// Replaces the rendering configuration of the frames read from now on.
    pub fn set_config(&mut self, config: Rc<Config>)
        ensures
            final(self).configuration() == config,
            final(self).detector() == old(self).detector(),
            final(self).has_domeseeing() == old(self).has_domeseeing(),
            final(self).windloads_driver() == old(self).windloads_driver(),
            old(self).wf() ==> final(self).wf(),
    {
        self.config = config;
    }

    /// This model with a wavefront-error source attached: the sample it
    /// yields at each step is added to the wavefront.
    pub fn domeseeing(self) -> (r: Self)
        ensures
            r.has_domeseeing(),
            r.detector() == self.detector(),
            r.windloads_driver() == self.windloads_driver(),
            r.configuration() == self.configuration(),
            self.wf() ==> r.wf(),
    {
        GmtOpticalModel { domeseeing: true, ..self }
    }

    /// This model with a structural-motion driver attached.
    pub fn windloads(self, windloads: WindLoads<T>) -> (r: Self)
        requires
            windloads.wf(),
        ensures
            r.windloads_driver() == Some(windloads),
            r.detector() == self.detector(),
            r.has_domeseeing() == self.has_domeseeing(),
            r.configuration() == self.configuration(),
            self.wf() ==> r.wf(),
    {
        GmtOpticalModel { windloads: Some(windloads), ..self }
    }

    /// Advances one step. `opd` is what the wavefront-error source yielded
    /// for it (`None` once exhausted); it is used only when such a source is
    /// attached. The structural-motion driver, if attached, yields its next
    /// sample; once exhausted, the mirrors stay where they are.
    ///
    /// Returns the actions the optics engine performs for the step, in
    /// order.
    pub fn ray_trace(&mut self, opd: Option<Vec<T>>) -> (r: Vec<Action<T>>)
        requires
            old(self).wf(),
        ensures
            final(self).wf(),
            final(self).detector() == old(self).detector(),
            final(self).has_domeseeing() == old(self).has_domeseeing(),
            final(self).configuration() == old(self).configuration(),
            advanced(old(self).windloads_driver(), final(self).windloads_driver()),
            r@.map_values(|a: Action<T>| a@) == plan(
                next_sample(old(self).windloads_driver()),
                if old(self).has_domeseeing() {
                    seq_of(opd)
                } else {
                    None
                },
            ),
    {
        let mut actions: Vec<Action<T>> = Vec::new();
        let rbms = match &mut self.windloads {
            Some(windloads) => windloads.next(),
            None => None,
        };
        let ghost rbms_view = seq_of(rbms);
        match rbms {
            Some(mut m1) => {
                let m2 = m1.split_off(M1_RBM_DOF);
                actions.push(Action::UpdateRigidBodyMotions(m1, m2));
            },
            None => {},
        }
        actions.push(Action::PropagateToPupil);
        let ghost opd_view = if self.domeseeing {
            seq_of(opd)
        } else {
            None
        };
        if self.domeseeing {
            match opd {
                Some(opd) => {
                    actions.push(Action::AddWavefront(opd));
                },
                None => {},
            }
        }
        actions.push(Action::PropagateToDetector);
        assert(actions@.map_values(|a: Action<T>| a@) =~= plan(rbms_view, opd_view));
        actions
    }

    /// Adds an image formed by the optics engine to the detector's exposure.
    /// On error the exposure is left as it was.
    pub fn expose(&mut self, image: &Vec<u32>) -> (r: Result<(), ExposureError>)
        requires
            old(self).wf(),
        ensures
            final(self).wf(),
            final(self).has_domeseeing() == old(self).has_domeseeing(),
            final(self).windloads_driver() == old(self).windloads_driver(),
            final(self).configuration() == old(self).configuration(),
            image@.len() != FRAME_LEN ==> r == Err::<(), ExposureError>(ExposureError::FrameSize),
            image@.len() == FRAME_LEN ==> {
                let fits = forall|p: int|
                    0 <= p < FRAME_LEN ==> old(self).detector()[p] + #[trigger] image@[p]
                        <= u32::MAX;
                &&& fits ==> r is Ok
                &&& !fits ==> r == Err::<(), ExposureError>(ExposureError::Saturated)
            },
            r is Ok ==> forall|p: int|
                0 <= p < FRAME_LEN ==> #[trigger] final(self).detector()[p] == old(
                    self,
                ).detector()[p] + image@[p],
            r is Err ==> final(self).detector() == old(self).detector(),
            final(self).detector().len() == FRAME_LEN,
    {
        if image.len() != FRAME_LEN {
            return Err(ExposureError::FrameSize);
        }
        if !sums_fit(&self.detector, image) {
            return Err(ExposureError::Saturated);
        }
        let mut p: usize = 0;
        while p < FRAME_LEN
            invariant
                p <= FRAME_LEN,
                self.detector@.len() == FRAME_LEN,
                image@.len() == FRAME_LEN,
                self.windloads == old(self).windloads,
                self.domeseeing == old(self).domeseeing,
                self.config == old(self).config,
                old(self).detector@.len() == FRAME_LEN,
                forall|q: int|
                    0 <= q < FRAME_LEN ==> #[trigger] old(self).detector@[q] + image@[q]
                        <= u32::MAX,
                forall|q: int|
                    0 <= q < p ==> #[trigger] self.detector@[q] == old(self).detector@[q]
                        + image@[q],
                forall|q: int|
                    p <= q < FRAME_LEN ==> #[trigger] self.detector@[q] == old(
                        self,
                    ).detector@[q],
            decreases FRAME_LEN - p,
        {
            let v: u32 = self.detector[p] + image[p];
            self.detector.set(p, v);
            p += 1;
        }
        Ok(())
    }

    /// Reads the exposure off the detector and resets it, so that the next
    /// step starts a fresh exposure. The frame carries the current
    /// configuration and neither wavefront map nor quality value.
    pub fn read_detector(&mut self) -> (r: PSF)
        requires
            old(self).wf(),
        ensures
            final(self).wf(),
            reads_detector(*old(self), *final(self), r.frame@),
            r.frame@.len() == FRAME_LEN,
            r.config == old(self).configuration(),
            r.opd is None,
            r.pssn is None,
    {
        let mut frame = dark();
        std::mem::swap(&mut frame, &mut self.detector);
        PSF::new(&self.config, frame)
    }
}

impl<'a, T: Copy> From<&'a GmtOpticalModel<T>> for PSFs {
    /// An empty collection rendered with the model's configuration.
    fn from(gmt: &'a GmtOpticalModel<T>) -> (r: PSFs)
        ensures
            r.wf(),
            r.frames() == Seq::<Seq<u32>>::empty(),
            r.opds() == Seq::<Option<Vec<i32>>>::empty(),
            r.config() == gmt.configuration(),
    {
        PSFs::new(&gmt.config)
    }
}

impl<'a, T: Copy> vstd::std_specs::convert::FromSpecImpl<&'a GmtOpticalModel<T>> for PSFs {
    open spec fn obeys_from_spec() -> bool {
        false
    }

    open spec fn from_spec(gmt: &'a GmtOpticalModel<T>) -> PSFs {
        arbitrary()
    }
}

/// Reading the detector of `before` gives `frame` and leaves `after`: the
/// frame is the accumulated exposure, and the detector is dark again.
pub open spec fn reads_detector<T: Copy>(
    before: GmtOpticalModel<T>,
    after: GmtOpticalModel<T>,
    frame: Seq<u32>,
) -> bool {
    &&& frame == before.detector()
    &&& after.detector() == dark_frame()
    &&& after.has_domeseeing() == before.has_domeseeing()
    &&& after.windloads_driver() == before.windloads_driver()
    &&& after.configuration() == before.configuration()
}

/// A well-formed model's detector holds one intensity per pixel, and its
/// structural-motion driver, if any, is well formed.
pub proof fn lemma_model_state<T: Copy>(gmt: GmtOpticalModel<T>)
    requires
        gmt.wf(),
    ensures
        gmt.detector().len() == FRAME_LEN,
        gmt.windloads_driver() matches Some(w) ==> w.wf(),
{
}

/// Reading the detector twice with no step in between gives a dark frame
/// the second time.
pub proof fn lemma_second_read_is_dark<T: Copy>(
    first: GmtOpticalModel<T>,
    second: GmtOpticalModel<T>,
    third: GmtOpticalModel<T>,
    frame1: Seq<u32>,
    frame2: Seq<u32>,
)
    requires
        reads_detector(first, second, frame1),
        reads_detector(second, third, frame2),
    ensures
        frame2.len() == FRAME_LEN,
        forall|p: int| 0 <= p < frame2.len() ==> frame2[p] == 0,
        first.wf() ==> frame1.len() == frame2.len(),
{
}

/// Whether every pixel of the two frames sums to at most the largest
/// intensity.
fn sums_fit(a: &Vec<u32>, b: &Vec<u32>) -> (r: bool)
    requires
        a@.len() == b@.len(),
    ensures
        r == forall|p: int| 0 <= p < a@.len() ==> a@[p] + #[trigger] b@[p] <= u32::MAX,
{
    let mut p: usize = 0;
    while p < a.len()
        invariant
            p <= a@.len(),
            a@.len() == b@.len(),
            forall|q: int| 0 <= q < p ==> a@[q] + #[trigger] b@[q] <= u32::MAX,
        decreases a@.len() - p,
    {
        if a[p] > u32::MAX - b[p] {
            assert(!(a@[p as int] + b@[p as int] <= u32::MAX));
            return false;
        }
        p += 1;
    }
    true
}

/// A dark detector frame.
fn dark() -> (r: Vec<u32>)
    ensures
        r@ == dark_frame(),
{
    let mut frame: Vec<u32> = Vec::with_capacity(FRAME_LEN);
    let mut p: usize = 0;
    while p < FRAME_LEN
        invariant
            p <= FRAME_LEN,
            frame@ == Seq::new(p as nat, |q: int| 0u32),
        decreases FRAME_LEN - p,
    {
        frame.push(0);
        p += 1;
        assert(frame@ =~= Seq::new(p as nat, |q: int| 0u32));
    }
    frame
}

} // verus!
