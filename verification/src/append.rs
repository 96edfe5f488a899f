//! Adding a feature to a layer in one operation.
//!
//! A feature is made for the layer's schema, given its geometry and its field
//! values, and written into the layer. The first failure ends the operation:
//! whatever was made until then is released, and nothing is written into the
//! layer. The feature is released after it was written, too: the layer keeps
//! its own copy.

use crate::error::{outcome_view, Error, ErrorView};
use crate::feature::{
    Creation, CreationView, Feature, FeatureView, GeometryUpdate, GeometryUpdateView,
    request_views,
};
use crate::field::{FieldValue, FieldValueView};
use crate::geometry::{geometry_release, Geometry};
use crate::handle::Handle;
use crate::insert::{Insert, InsertView};
use crate::laws::feature_is_released_once;
use crate::layer::Layer;
use crate::native::{Request, RequestView, Response, ResponseView};
use crate::step::{Step, StepView};
use crate::write::{FieldWrite, FieldWriteView};
use vstd::prelude::*;

verus! {

/// How far the adding of a feature has come.
#[derive(PartialEq, Eq, Debug)]
enum Stage<'a> {
    /// The feature is being made; `geometry` waits for it.
    Making { creation: Creation<'a>, geometry: Geometry },
    /// The feature is being given its geometry.
    Shaping { feature: Feature<'a>, update: GeometryUpdate },
    /// The field before `next` is being written.
    Filling { feature: Feature<'a>, next: usize, writing: FieldWrite },
    /// The feature is being written into the layer.
    Inserting { feature: Feature<'a>, insert: Insert },
    /// What was made is being released, request by request; `result` is what
    /// the adding ends in.
    Releasing { requests: Vec<Request>, next: usize, result: Result<(), Error> },
}

/// The adding of a feature to a layer, while it waits for an answer.
#[derive(PartialEq, Eq, Debug)]
pub struct Append<'a> {
    layer: Handle,
    names: &'a [&'a str],
    values: &'a [FieldValue],
    stage: Stage<'a>,
}

/// The mathematical value of a stage of an [`Append`].
pub ghost enum StageView {
    Making { creation: CreationView, geometry: Geometry },
    Shaping { feature: FeatureView, update: GeometryUpdateView },
    Filling { feature: FeatureView, next: nat, writing: FieldWriteView },
    Inserting { feature: FeatureView, insert: InsertView },
    Releasing { requests: Seq<RequestView>, next: nat, result: Result<(), ErrorView> },
}

/// The mathematical value of an [`Append`].
pub ghost struct AppendView {
    /// The native handle of the layer.
    pub layer: Handle,
    /// The fields to write, in order: each name with its value.
    pub fields: Seq<(Seq<char>, FieldValueView)>,
    /// How far the adding has come.
    pub stage: StageView,
}

/// The fields that `names` and `values` give: each name with the value at
/// its position, as far as both reach.
pub open spec fn paired(names: Seq<&str>, values: Seq<FieldValue>) -> Seq<
    (Seq<char>, FieldValueView),
> {
    Seq::new(
        if names.len() <= values.len() {
            names.len()
        } else {
            values.len()
        },
        |i: int| (names[i]@, values[i]@),
    )
}

impl<'a> View for Append<'a> {
    type V = AppendView;

    closed spec fn view(&self) -> AppendView {
        AppendView {
            layer: self.layer,
            fields: paired(self.names@, self.values@),
            stage: match self.stage {
                Stage::Making { creation, geometry } => StageView::Making {
                    creation: creation@,
                    geometry,
                },
                Stage::Shaping { feature, update } => StageView::Shaping {
                    feature: feature@,
                    update: update@,
                },
                Stage::Filling { feature, next, writing } => StageView::Filling {
                    feature: feature@,
                    next: next as nat,
                    writing: writing@,
                },
                Stage::Inserting { feature, insert } => StageView::Inserting {
                    feature: feature@,
                    insert: insert@,
                },
                Stage::Releasing { requests, next, result } => StageView::Releasing {
                    requests: request_views(requests@),
                    next: next as nat,
                    result: outcome_view(result),
                },
            },
        }
    }
}

impl AppendView {
    /// Whether the adding is in a state that it can come to.
    pub open spec fn wf(self) -> bool {
        match self.stage {
            StageView::Making { .. } => true,
            StageView::Shaping { feature, update } => update.fits(feature),
            StageView::Filling { next, .. } => 1 <= next <= self.fields.len(),
            StageView::Inserting { .. } => true,
            StageView::Releasing { requests, next, .. } => {
                &&& next < requests.len()
                &&& forall|i: int| 0 <= i < requests.len() ==> (#[trigger] requests[i]).releases()
            },
        }
    }

    /// The adding with the same layer and fields, at `stage`.
    pub open spec fn at(self, stage: StageView) -> AppendView {
        AppendView { stage, ..self }
    }

    /// The adding of a feature with `geometry` and `fields` to `layer`, whose
    /// schema is `defn`, from the start.
    pub open spec fn start(
        layer: Handle,
        defn: Handle,
        geometry: Geometry,
        fields: Seq<(Seq<char>, FieldValueView)>,
    ) -> StepView<AppendView, ()> {
        StepView::Ask(
            AppendView {
                layer,
                fields,
                stage: StageView::Making {
                    creation: CreationView::Allocating { defn },
                    geometry,
                },
            },
        )
    }

    /// The call that the adding waits for.
    pub open spec fn request(self) -> RequestView {
        match self.stage {
            StageView::Making { creation, .. } => creation.request(),
            StageView::Shaping { update, .. } => update.request(),
            StageView::Filling { writing, .. } => writing.request(),
            StageView::Inserting { insert, .. } => insert.request(),
            StageView::Releasing { requests, next, .. } => requests[next as int],
        }
    }

    /// Whether the adding can be resumed with `response`: it answers the
    /// request, a feature that is made finds a geometry to be given, and a
    /// geometry that the native library accepted finds a slot to go into.
    pub open spec fn accepts(self, response: ResponseView) -> bool {
        &&& response.kind() == self.request().answer()
        &&& match self.stage {
            StageView::Making { creation, geometry } => creation is Counting
                ==> geometry.has_gdal_ptr(),
            StageView::Shaping { feature, update } => update.accepts(feature, response),
            _ => true,
        }
    }

    /// Ending the adding in `result` once `requests` were made: the first of
    /// them is asked for, or, where there is none, the adding has ended.
    pub open spec fn wind_down(
        layer: Handle,
        fields: Seq<(Seq<char>, FieldValueView)>,
        requests: Seq<RequestView>,
        result: Result<(), ErrorView>,
    ) -> StepView<AppendView, ()> {
        if requests.len() == 0 {
            StepView::Done(result)
        } else {
            StepView::Ask(
                AppendView { layer, fields, stage: StageView::Releasing { requests, next: 0, result } },
            )
        }
    }

    /// Going on with field `i` of `feature`: the field is written, or, where
    /// its name or value cannot cross to the native library, the feature is
    /// released and the adding ends in that error. After the last field the
    /// feature is written into the layer.
    pub open spec fn fill(
        layer: Handle,
        fields: Seq<(Seq<char>, FieldValueView)>,
        feature: FeatureView,
        i: nat,
    ) -> StepView<AppendView, ()> {
        if i >= fields.len() {
            StepView::Ask(
                AppendView {
                    layer,
                    fields,
                    stage: StageView::Inserting {
                        feature,
                        insert: InsertView { layer, feature: feature.c_feature },
                    },
                },
            )
        } else {
            match feature.set_field(fields[i as int].0, fields[i as int].1) {
                StepView::Ask(writing) => StepView::Ask(
                    AppendView {
                        layer,
                        fields,
                        stage: StageView::Filling { feature, next: i + 1, writing },
                    },
                ),
                StepView::Done(result) => AppendView::wind_down(
                    layer,
                    fields,
                    feature.release(),
                    result,
                ),
            }
        }
    }

    /// What is owed when the adding is given up after its request was made:
    /// the release of everything that it holds and has not released yet. A
    /// geometry that waits to go into the feature comes first, then the
    /// feature with what its slots hold.
    pub open spec fn abandon(self) -> Seq<RequestView> {
        match self.stage {
            StageView::Making { creation, geometry } => geometry_release(geometry)
                + creation.abandon(),
            StageView::Shaping { feature, update } => update.abandon() + feature.release(),
            StageView::Filling { feature, .. } => feature.release(),
            StageView::Inserting { feature, .. } => feature.release(),
            StageView::Releasing { requests, next, .. } => requests.skip(next as int + 1),
        }
    }

    /// The adding after the answer `response` to its request.
    ///
    /// Each stage goes on as the operation that it runs. When that operation
    /// ends in an error, what was made is released and the adding ends in the
    /// error. When it ends well, the next stage starts: the geometry, then the
    /// fields in order, then the writing into the layer, then the release of
    /// the feature.
    pub open spec fn resume(self, response: ResponseView) -> StepView<AppendView, ()> {
        match self.stage {
            StageView::Making { creation, geometry } => match creation.resume(response) {
                StepView::Ask(creation) => StepView::Ask(
                    self.at(StageView::Making { creation, geometry }),
                ),
                StepView::Done(Err(error)) => AppendView::wind_down(
                    self.layer,
                    self.fields,
                    geometry_release(geometry),
                    Err(error),
                ),
                StepView::Done(Ok(feature)) => StepView::Ask(
                    self.at(
                        StageView::Shaping {
                            feature,
                            update: GeometryUpdateView::Setting {
                                feature: feature.c_feature,
                                geom: geometry,
                            },
                        },
                    ),
                ),
            },
            StageView::Shaping { feature, update } => {
                let (feature, step) = update.resume(feature, response);
                match step {
                    StepView::Ask(update) => StepView::Ask(
                        self.at(StageView::Shaping { feature, update }),
                    ),
                    StepView::Done(Err(error)) => AppendView::wind_down(
                    self.layer,
                    self.fields,
                    feature.release(),
                    Err(error),
                ),
                    StepView::Done(Ok(_)) => AppendView::fill(self.layer, self.fields, feature, 0),
                }
            },
            StageView::Filling { feature, next, writing } => match writing.resume(response) {
                StepView::Ask(writing) => StepView::Ask(
                    self.at(StageView::Filling { feature, next, writing }),
                ),
                StepView::Done(Err(error)) => AppendView::wind_down(
                    self.layer,
                    self.fields,
                    feature.release(),
                    Err(error),
                ),
                StepView::Done(Ok(_)) => AppendView::fill(self.layer, self.fields, feature, next),
            },
            StageView::Inserting { feature, insert } => match insert.resume(response) {
                StepView::Ask(insert) => StepView::Ask(
                    self.at(StageView::Inserting { feature, insert }),
                ),
                StepView::Done(result) => AppendView::wind_down(
                    self.layer,
                    self.fields,
                    feature.release(),
                    result,
                ),
            },
            StageView::Releasing { requests, next, result } => {
                if next + 1 < requests.len() {
                    StepView::Ask(
                        self.at(StageView::Releasing { requests, next: next + 1, result }),
                    )
                } else {
                    StepView::Done(result)
                }
            },
        }
    }
}

/// A copy of a request that releases a native object.
fn release_request(request: &Request) -> (copy: Request)
    requires
        request@.releases(),
    ensures
        copy@ == request@,
{
    match request {
        Request::FeatureDestroy { feature } => Request::FeatureDestroy { feature: *feature },
        Request::GeometryDestroy { geometry } => Request::GeometryDestroy { geometry: *geometry },
        _ => vstd::pervasive::unreached(),
    }
}

impl<'a> Append<'a> {
    #[verifier::type_invariant]
    spec fn stage_is_sound(&self) -> bool {
        self@.wf()
    }

    /// The calls that release `geometry`, which has no holder.
    fn release_of(geometry: Geometry) -> (requests: Vec<Request>)
        ensures
            request_views(requests@) == geometry_release(geometry),
    {
        let mut requests: Vec<Request> = Vec::new();
        match geometry.destroy() {
            Some(request) => {
                requests.push(request);
            },
            None => {},
        }
        requests
    }

    /// Ends the adding in `result` once `requests` were made.
    fn wind_down(
        layer: Handle,
        names: &'a [&'a str],
        values: &'a [FieldValue],
        requests: Vec<Request>,
        result: Result<(), Error>,
    ) -> (step: Step<Append<'a>, ()>)
        requires
            forall|i: int|
                0 <= i < requests@.len() ==> (#[trigger] request_views(requests@)[i]).releases(),
        ensures
            step@ == AppendView::wind_down(
                layer,
                paired(names@, values@),
                request_views(requests@),
                outcome_view(result),
            ),
            step matches Step::Ask(append) ==> append@.wf(),
    {
        if requests.len() == 0 {
            Step::Done(result)
        } else {
            Step::Ask(
                Append { layer, names, values, stage: Stage::Releasing { requests, next: 0, result } },
            )
        }
    }

    /// Releases `feature` and ends the adding in `result`.
    fn release_and_end(
        layer: Handle,
        names: &'a [&'a str],
        values: &'a [FieldValue],
        feature: Feature<'a>,
        result: Result<(), Error>,
    ) -> (step: Step<Append<'a>, ()>)
        ensures
            step@ == AppendView::wind_down(
                layer,
                paired(names@, values@),
                feature@.release(),
                outcome_view(result),
            ),
            step matches Step::Ask(append) ==> append@.wf(),
    {
        proof {
            feature_is_released_once(feature@);
        }
        let requests = feature.destroy();
        Append::wind_down(layer, names, values, requests, result)
    }

    /// Goes on with field `i` of `feature`.
    fn fill(
        layer: Handle,
        names: &'a [&'a str],
        values: &'a [FieldValue],
        feature: Feature<'a>,
        i: usize,
    ) -> (step: Step<Append<'a>, ()>)
        ensures
            step@ == AppendView::fill(layer, paired(names@, values@), feature@, i as nat),
            step matches Step::Ask(append) ==> append@.wf(),
    {
        let n = if names.len() <= values.len() {
            names.len()
        } else {
            values.len()
        };
        if i >= n {
            let insert = Insert { layer, feature: feature.c_feature() };
            Step::Ask(Append { layer, names, values, stage: Stage::Inserting { feature, insert } })
        } else {
            match feature.set_field(names[i], &values[i]) {
                Step::Ask(writing) => Step::Ask(
                    Append {
                        layer,
                        names,
                        values,
                        stage: Stage::Filling { feature, next: i + 1, writing },
                    },
                ),
                Step::Done(result) => Append::release_and_end(
                    layer,
                    names,
                    values,
                    feature,
                    result,
                ),
            }
        }
    }

    /// The call that the adding waits for.
    pub fn request(&self) -> (request: Request)
        ensures
            request@ == self@.request(),
            self@.wf(),
    {
        proof {
            use_type_invariant(self);
        }
        match &self.stage {
            Stage::Making { creation, .. } => creation.request(),
            Stage::Shaping { update, .. } => update.request(),
            Stage::Filling { writing, .. } => writing.request(),
            Stage::Inserting { insert, .. } => insert.request(),
            Stage::Releasing { requests, next, .. } => release_request(&requests[*next]),
        }
    }

    /// Whether the adding can be resumed with `response`.
    pub fn accepts(&self, response: &Response) -> (b: bool)
        ensures
            b == self@.accepts(response@),
    {
        if response.kind() != self.request().answer() {
            return false;
        }
        match &self.stage {
            Stage::Making { creation, geometry } => match creation {
                Creation::Counting { .. } => geometry.has_gdal_ptr(),
                _ => true,
            },
            Stage::Shaping { feature, update } => update.accepts(feature, response),
            _ => true,
        }
    }

    /// Gives the adding up after its request was made: the calls that
    /// release what it holds, in order, for a caller that cannot go on with it.
    pub fn abandon(self) -> (requests: Vec<Request>)
        ensures
            request_views(requests@) == self@.abandon(),
    {
        proof {
            use_type_invariant(&self);
        }
        match self.stage {
            Stage::Making { creation, geometry } => {
                let mut requests = Append::release_of(geometry);
                let mut rest = creation.abandon();
                requests.append(&mut rest);
                requests
            },
            Stage::Shaping { feature, update } => {
                let mut requests = update.abandon();
                let mut rest = feature.destroy();
                requests.append(&mut rest);
                requests
            },
            Stage::Filling { feature, .. } => feature.destroy(),
            Stage::Inserting { feature, .. } => feature.destroy(),
            Stage::Releasing { requests, next, .. } => {
                let n = requests.len();
                let mut rest: Vec<Request> = Vec::new();
                let mut i: usize = next + 1;
                while i < n
                    invariant
                        n == requests@.len(),
                        next + 1 <= i <= n,
                        forall|k: int|
                            0 <= k < n ==> (#[trigger] request_views(requests@)[k]).releases(),
                        request_views(rest@) == request_views(requests@).subrange(
                            next + 1,
                            i as int,
                        ),
                    decreases n - i,
                {
                    let ghost before = request_views(rest@);
                    assert(request_views(requests@)[i as int] == requests@[i as int]@);
                    rest.push(release_request(&requests[i]));
                    assert(request_views(rest@) =~= before.push(requests@[i as int]@));
                    i += 1;
                }
                rest
            },
        }
    }

    /// Hands the adding the answer to its request.
    pub fn resume(self, response: Response) -> (step: Step<Append<'a>, ()>)
        requires
            self@.accepts(response@),
        ensures
            step@ == self@.resume(response@),
            step matches Step::Ask(append) ==> append@.wf(),
    {
        proof {
            use_type_invariant(&self);
        }
        let Append { layer, names, values, stage } = self;
        match stage {
            Stage::Making { creation, geometry } => match creation.resume(response) {
                Step::Ask(creation) => Step::Ask(
                    Append { layer, names, values, stage: Stage::Making { creation, geometry } },
                ),
                Step::Done(Err(error)) => {
                    let requests = Append::release_of(geometry);
                    Append::wind_down(layer, names, values, requests, Err(error))
                },
                Step::Done(Ok(feature)) => match feature.set_geometry(geometry) {
                    Step::Ask(update) => Step::Ask(
                        Append { layer, names, values, stage: Stage::Shaping { feature, update } },
                    ),
                    Step::Done(_) => vstd::pervasive::unreached(),
                },
            },
            Stage::Shaping { feature, update } => {
                let mut feature = feature;
                match update.resume(&mut feature, response) {
                    Step::Ask(update) => Step::Ask(
                        Append { layer, names, values, stage: Stage::Shaping { feature, update } },
                    ),
                    Step::Done(Err(error)) => Append::release_and_end(
                        layer,
                        names,
                        values,
                        feature,
                        Err(error),
                    ),
                    Step::Done(Ok(())) => Append::fill(layer, names, values, feature, 0),
                }
            },
            Stage::Filling { feature, next, writing } => match writing.resume(response) {
                Step::Ask(writing) => Step::Ask(
                    Append { layer, names, values, stage: Stage::Filling { feature, next, writing } },
                ),
                Step::Done(Err(error)) => Append::release_and_end(
                    layer,
                    names,
                    values,
                    feature,
                    Err(error),
                ),
                Step::Done(Ok(())) => Append::fill(layer, names, values, feature, next),
            },
            Stage::Inserting { feature, insert } => match insert.resume(response) {
                Step::Ask(insert) => Step::Ask(
                    Append { layer, names, values, stage: Stage::Inserting { feature, insert } },
                ),
                Step::Done(result) => Append::release_and_end(
                    layer,
                    names,
                    values,
                    feature,
                    result,
                ),
            },
            Stage::Releasing { requests, next, result } => {
                let n = requests.len();
                if next + 1 < n {
                    Step::Ask(
                        Append {
                            layer,
                            names,
                            values,
                            stage: Stage::Releasing { requests, next: next + 1, result },
                        },
                    )
                } else {
                    Step::Done(result)
                }
            },
        }
    }
}


impl Layer {
    /// Starts adding a feature to this layer: one with the geometry
    /// `geometry`, which the operation takes over, and with each of `values`
    /// in the field that `field_names` names at the same position.
    pub fn create_feature_fields<'a>(
        &'a self,
        geometry: Geometry,
        field_names: &'a [&'a str],
        values: &'a [FieldValue],
    ) -> (step: Step<Append<'a>, ()>)
        ensures
            step@ == AppendView::start(
                self.gdal_object_ptr(),
                self.defn().c_defn(),
                geometry,
                paired(field_names@, values@),
            ),
            step matches Step::Ask(append) && append@.wf(),
    {
        Step::Ask(
            Append {
                layer: self.gdal_object_ptr(),
                names: field_names,
                values,
                stage: Stage::Making {
                    creation: Creation::Allocating { defn: self.defn() },
                    geometry,
                },
            },
        )
    }
}

} // verus!
