//! What holds of the binding as a whole.
//!
//! Each law here is proved from the models of the operations alone. The
//! native library is not modelled: where a law needs one of its answers, that
//! answer is a parameter, and the law holds of every value of it.

use crate::append::{AppendView, StageView};
use crate::error::ErrorView;
use crate::feature::{
    drop_geometry, geometry_releases, lazy_slots, slot_index, CreationView, FeatureView,
    GeometryAccessView, GeometryUpdateView,
};
use crate::field::{FieldValueView, OFT_INTEGER, OFT_REAL, OFT_STRING};
use crate::geometry::Geometry;
use crate::handle::Handle;
use crate::insert::{status_result, InsertView};
use crate::native::{Kind, RequestView, ResponseView, OGRERR_NONE};
use crate::read::FieldReadView;
use crate::step::StepView;
use crate::text::{is_native_text, nul_error};
use crate::wkt::FromWktView;
use crate::write::{store_request, FieldWriteView};
use vstd::multiset::Multiset;
use vstd::prelude::*;

verus! {

/// Whether `value` can be handed to the native library: a text must cross whole.
pub open spec fn is_writable(value: FieldValueView) -> bool {
    value matches FieldValueView::StringValue(text) ==> is_native_text(text)
}

/// What the getter of a field answers when the native library hands back the
/// value that was stored in it.
pub open spec fn stored_answer(value: FieldValueView) -> ResponseView {
    match value {
        FieldValueView::StringValue(text) => ResponseView::Text(text),
        FieldValueView::RealValue(bits) => ResponseView::Real(bits),
        FieldValueView::IntegerValue(v) => ResponseView::Integer(v),
    }
}

/// What is written is what is read.
///
/// Writing `value` to a field that the schema has, at `index`, asks for the
/// index and then stores exactly `value` at that index. Reading the field,
/// when the schema declares the type of `value` for it and the native library
/// hands back what was stored, yields `value`: the same variant, the same
/// payload.
pub proof fn written_value_reads_back(
    feature: FeatureView,
    name: Seq<char>,
    value: FieldValueView,
    index: i32,
    field_defn: Handle,
)
    requires
        is_native_text(name),
        is_writable(value),
        index != -1,
    ensures
        ({
            &&& feature.set_field(name, value) matches StepView::Ask(lookup)
            &&& lookup.request() == RequestView::FieldIndex { feature: feature.c_feature, name }
            &&& lookup.resume(ResponseView::Integer(index)) matches StepView::Ask(store)
            &&& store.request() == store_request(feature.c_feature, index, value)
            &&& store.request().answer() == Kind::Nothing
            &&& store.resume(ResponseView::Nothing) == StepView::<FieldWriteView, ()>::Done(Ok(()))
        }),
        ({
            &&& feature.field(name) matches StepView::Ask(lookup)
            &&& lookup.request() == RequestView::FieldIndex { feature: feature.c_feature, name }
            &&& lookup.resume(ResponseView::Integer(index)) matches StepView::Ask(describe)
            &&& describe.request() == RequestView::FieldDefnRef {
                feature: feature.c_feature,
                index,
            }
            &&& describe.resume(ResponseView::Handle(field_defn)) matches StepView::Ask(classify)
            &&& classify.request() == RequestView::FieldType { field_defn }
            &&& classify.resume(ResponseView::Code(value.field_type())) matches StepView::Ask(fetch)
            &&& fetch.accepts(stored_answer(value))
            &&& fetch.resume(stored_answer(value)) == StepView::<
                FieldReadView,
                FieldValueView,
            >::Done(Ok(value))
        }),
{
}

/// A name that the schema lacks is refused, and nothing is written.
///
/// Reading or writing a field whose name the native library does not find
/// (it answers -1) ends in the error that carries the name. The one request
/// made before that asks for the index and changes nothing.
pub proof fn unknown_field_is_refused(feature: FeatureView, name: Seq<char>, value: FieldValueView)
    requires
        is_native_text(name),
        is_writable(value),
    ensures
        ({
            &&& feature.field(name) matches StepView::Ask(lookup)
            &&& !lookup.request().writes_feature()
            &&& lookup.resume(ResponseView::Integer(-1i32)) == StepView::<
                FieldReadView,
                FieldValueView,
            >::Done(
                Err(ErrorView::InvalidFieldName { field_name: name, method_name: "field"@ }),
            )
        }),
        ({
            &&& feature.set_field(name, value) matches StepView::Ask(lookup)
            &&& !lookup.request().writes_feature()
            &&& lookup.resume(ResponseView::Integer(-1i32)) == StepView::<FieldWriteView, ()>::Done(
                Err(
                    ErrorView::InvalidFieldName {
                        field_name: name,
                        method_name: "set_field_string"@,
                    },
                ),
            )
        }),
{
}

/// A value is stored only in a field that was found.
///
/// The only request of a writing that changes the feature is the one that
/// stores the value, and the writing comes to it only from a lookup that was
/// answered with an index.
pub proof fn store_follows_lookup(writing: FieldWriteView, response: ResponseView)
    ensures
        writing.request().writes_feature() <==> (writing is Store),
        !writing.request().writes_layer(),
        !writing.request().releases(),
        writing.resume(response) matches StepView::Ask(next) ==> ({
            &&& writing is Lookup
            &&& response->Integer_0 != -1
            &&& next == (FieldWriteView::Store {
                feature: writing->Lookup_feature,
                index: response->Integer_0,
                value: writing->Lookup_value,
            })
        }),
{
}

/// Reading changes nothing: none of its requests writes or releases.
pub proof fn reading_writes_nothing(reading: FieldReadView)
    ensures
        !reading.request().writes_feature(),
        !reading.request().writes_layer(),
        !reading.request().releases(),
{
}

/// A geometry field that the schema lacks is refused, and the feature stays as it was.
pub proof fn unknown_geometry_field_is_refused(feature: FeatureView, name: Seq<char>)
    requires
        is_native_text(name),
    ensures
        ({
            &&& feature.geometry_by_name(name) matches StepView::Ask(lookup)
            &&& lookup.fits(feature)
            &&& lookup.request() == RequestView::GeomFieldIndex { feature: feature.c_feature, name }
            &&& lookup.resume(feature, ResponseView::Integer(-1i32)) == (
                feature,
                StepView::<GeometryAccessView, usize>::Done(
                    Err(
                        ErrorView::InvalidFieldName {
                            field_name: name,
                            method_name: "geometry_by_name"@,
                        },
                    ),
                ),
            )
        }),
{
}

/// A slot that the feature does not have is refused before anything is asked.
///
/// This holds of the primary geometry of a feature without slots, by index,
/// and by name too: whatever index the native library
/// answers for a name, a slot beyond the feature's own is refused, and so is
/// every negative index.
pub proof fn missing_slot_is_refused(
    feature: FeatureView,
    idx: usize,
    name: Seq<char>,
    native_index: i32,
)
    requires
        feature.wf(),
    ensures
        feature.geometry.len() == 0 ==> feature.geometry() == StepView::<
            GeometryAccessView,
            usize,
        >::Done(Err(ErrorView::InvalidFieldIndex { index: 0, method_name: "geometry"@ })),
        idx >= feature.geometry.len() ==> feature.geometry_by_index(idx) == StepView::<
            GeometryAccessView,
            usize,
        >::Done(Err(ErrorView::InvalidFieldIndex { index: idx, method_name: "geometry_by_name"@ })),
        native_index != -1 && (native_index < 0 || native_index >= feature.geometry.len()) ==> (
            GeometryAccessView::Lookup { feature: feature.c_feature, name }
        ).resume(feature, ResponseView::Integer(native_index)) == (
            feature,
            StepView::<GeometryAccessView, usize>::Done(
                Err(
                    ErrorView::InvalidFieldIndex {
                        index: slot_index(native_index),
                        method_name: "geometry_by_name"@,
                    },
                ),
            ),
        ),
{
}

/// A slot is named to the native library by its own index.
///
/// The index of a slot that is asked for fits the native integer, so the
/// request names that slot and no other.
pub proof fn slot_is_asked_by_its_index(feature: FeatureView, idx: usize)
    requires
        feature.wf(),
        idx < feature.geometry.len(),
        !feature.geometry[idx as int].has_gdal_ptr(),
    ensures
        ({
            &&& feature.geometry_by_index(idx) matches StepView::Ask(access)
            &&& access.fits(feature)
            &&& access.request() matches RequestView::GeomFieldRef { feature: c_feature, index }
            &&& c_feature == feature.c_feature
            &&& index as int == idx as int
        }),
{
}

/// A slot is bound once.
///
/// When the native library gives a geometry for an unbound slot, the slot is
/// bound to it and no other slot changes. From then on the slot is there at
/// once: reaching it again asks for nothing.
pub proof fn bound_slot_is_not_asked_again(feature: FeatureView, idx: usize, c_geometry: Handle)
    requires
        idx < feature.geometry.len(),
        !feature.geometry[idx as int].has_gdal_ptr(),
        !c_geometry.is_null(),
    ensures
        ({
            let access = GeometryAccessView::Indexed { feature: feature.c_feature, index: idx };
            let (after, step) = access.resume(feature, ResponseView::Handle(c_geometry));
            &&& feature.geometry_by_index(idx) == StepView::<GeometryAccessView, usize>::Ask(access)
            &&& step == StepView::<GeometryAccessView, usize>::Done(Ok(idx))
            &&& after.geometry[idx as int] == Geometry::Bound(c_geometry)
            &&& after.geometry.len() == feature.geometry.len()
            &&& forall|j: int|
                0 <= j < feature.geometry.len() && j != idx ==> after.geometry[j]
                    == feature.geometry[j]
            &&& after.geometry_by_index(idx) == StepView::<GeometryAccessView, usize>::Done(Ok(idx))
        }),
{
}

/// A geometry that the native library accepts is the primary geometry from then on.
///
/// After the status of success, slot 0 holds the geometry that was set, and
/// reaching the primary geometry yields it without asking. What slot 0 held
/// before is dropped. After any other status the feature is as it was, the
/// geometry is dropped, and the setting ends in the error that keeps the status.
pub proof fn accepted_geometry_is_primary(feature: FeatureView, geom: Geometry, status: u32)
    requires
        geom.has_gdal_ptr(),
        feature.geometry.len() > 0,
    ensures
        ({
            let setting = GeometryUpdateView::Setting { feature: feature.c_feature, geom };
            let (after, step) = setting.resume(feature, ResponseView::Code(status));
            &&& feature.set_geometry(geom) == StepView::<GeometryUpdateView, ()>::Ask(setting)
            &&& setting.request() == RequestView::SetGeometry {
                feature: feature.c_feature,
                geometry: geom.c_geometry(),
            }
            &&& status == OGRERR_NONE ==> {
                &&& after.geometry == feature.geometry.update(0, geom)
                &&& after.geometry() == StepView::<GeometryAccessView, usize>::Done(Ok(0))
                &&& step == drop_geometry(feature.geometry[0], Ok(()))
            }
            &&& status != OGRERR_NONE ==> {
                &&& after == feature
                &&& step == drop_geometry(
                    geom,
                    Err(ErrorView::OgrError { err: status, method_name: "OGR_F_SetGeometry"@ }),
                )
            }
        }),
{
}

/// The freestanding geometries that `slots` hold, each as often as it is held.
pub open spec fn owned_in(slots: Seq<Geometry>) -> Multiset<Handle>
    decreases slots.len(),
{
    if slots.len() == 0 {
        Multiset::empty()
    } else {
        match slots.last() {
            Geometry::Owned(h) => owned_in(slots.drop_last()).insert(h),
            _ => owned_in(slots.drop_last()),
        }
    }
}

/// The geometries that the requests `requests` release, each as often as it is released.
pub open spec fn released_by(requests: Seq<RequestView>) -> Multiset<Handle>
    decreases requests.len(),
{
    if requests.len() == 0 {
        Multiset::empty()
    } else {
        match requests.last() {
            RequestView::GeometryDestroy { geometry } => released_by(requests.drop_last()).insert(
                geometry,
            ),
            _ => released_by(requests.drop_last()),
        }
    }
}

/// The releases owed to slots are releases of geometries, one for each
/// freestanding geometry held, and none for any other.
pub proof fn slots_are_released_once(slots: Seq<Geometry>)
    ensures
        forall|i: int|
            0 <= i < geometry_releases(slots).len() ==> (#[trigger] geometry_releases(slots)[i]
                is GeometryDestroy),
        released_by(geometry_releases(slots)) == owned_in(slots),
        geometry_releases(slots).len() <= slots.len(),
    decreases slots.len(),
{
    if slots.len() > 0 {
        slots_are_released_once(slots.drop_last());
        let rest = geometry_releases(slots.drop_last());
        match slots.last() {
            Geometry::Owned(geometry) => {
                let all = rest.push(RequestView::GeometryDestroy { geometry });
                assert(all.drop_last() =~= rest);
            },
            _ => {},
        }
    }
}

/// A feature is released exactly once, whatever happened to it before.
///
/// Destroying a feature asks for the release of its native handle first, and
/// only once: every later request releases a geometry. Each freestanding
/// geometry in its slots is released as often as it is held, and no geometry
/// that the native feature lent is released at all.
pub proof fn feature_is_released_once(feature: FeatureView)
    ensures
        feature.release().len() >= 1,
        feature.release()[0] == (RequestView::FeatureDestroy { feature: feature.c_feature }),
        forall|i: int|
            1 <= i < feature.release().len() ==> (#[trigger] feature.release()[i]
                is GeometryDestroy),
        released_by(feature.release()) == owned_in(feature.geometry),
{
    slots_are_released_once(feature.geometry);
    released_by_skips_the_feature(
        RequestView::FeatureDestroy { feature: feature.c_feature },
        geometry_releases(feature.geometry),
    );
}

/// A request that releases no geometry adds nothing to the geometries released.
proof fn released_by_skips_the_feature(first: RequestView, rest: Seq<RequestView>)
    requires
        !(first is GeometryDestroy),
    ensures
        released_by(seq![first] + rest) == released_by(rest),
    decreases rest.len(),
{
    let all = seq![first] + rest;
    if rest.len() == 0 {
        assert(released_by(all.drop_last()) == Multiset::<Handle>::empty());
    } else {
        released_by_skips_the_feature(first, rest.drop_last());
        assert(all.drop_last() =~= seq![first] + rest.drop_last());
    }
}

/// No operation changes the handle that a feature is released by.
///
/// Reaching a geometry and setting one return the feature with the native
/// handle and the schema that it had, and with as many slots, whatever the
/// native library answered and however the operation ended.
pub proof fn operations_keep_the_handle(
    feature: FeatureView,
    access: GeometryAccessView,
    update: GeometryUpdateView,
    response: ResponseView,
)
    ensures
        ({
            let after = access.resume(feature, response).0;
            access.accepts(feature, response) ==> after.c_feature == feature.c_feature
                && after.defn == feature.defn && after.geometry.len() == feature.geometry.len()
        }),
        ({
            let after = update.resume(feature, response).0;
            update.accepts(feature, response) ==> after.c_feature == feature.c_feature
                && after.defn == feature.defn && after.geometry.len() == feature.geometry.len()
        }),
{
}

/// Writing a feature into a layer is one request, and its status decides.
pub proof fn insert_is_decided_by_status(feature: FeatureView, layer: Handle, status: u32)
    ensures
        ({
            let insert = InsertView { layer, feature: feature.c_feature };
            &&& feature.create(layer) == StepView::<InsertView, ()>::Ask(insert)
            &&& insert.request() == RequestView::LayerCreateFeature {
                layer,
                feature: feature.c_feature,
            }
            &&& insert.resume(ResponseView::Code(status)) == StepView::<InsertView, ()>::Done(
                status_result(status, "OGR_L_CreateFeature"@),
            )
            &&& (insert.resume(ResponseView::Code(status)) matches StepView::Done(Ok(_)))
                <==> status == OGRERR_NONE
        }),
{
}

/// A feature is made if and only if the native library gives a handle.
///
/// Any handle but null becomes the feature's, which then gets one unbound
/// slot for each geometry field that the schema counts. A null handle makes
/// no feature: the last error message is fetched, the native error state is
/// reset, and the making ends in the error that carries the message.
pub proof fn feature_is_made_iff_handle_is_not_null(
    defn: Handle,
    c_feature: Handle,
    count: i32,
    msg: Seq<char>,
)
    ensures
        !c_feature.is_null() ==> ({
            let allocating = CreationView::Allocating { defn };
            &&& allocating.request() == RequestView::FeatureCreate { defn }
            &&& allocating.resume(ResponseView::Handle(c_feature)) matches StepView::Ask(counting)
            &&& counting.request() == RequestView::GeomFieldCount { defn }
            &&& counting.resume(ResponseView::Integer(count)) == StepView::<
                CreationView,
                FeatureView,
            >::Done(Ok(FeatureView { defn, c_feature, geometry: lazy_slots(count) }))
            &&& lazy_slots(count).len() == (if count > 0 {
                count as nat
            } else {
                0
            })
            &&& (FeatureView { defn, c_feature, geometry: lazy_slots(count) }).wf()
        }),
        c_feature.is_null() ==> ({
            let allocating = CreationView::Allocating { defn };
            &&& allocating.resume(ResponseView::Handle(c_feature)) matches StepView::Ask(failing)
            &&& failing.request() == RequestView::LastErrorMsg
            &&& failing.resume(ResponseView::Text(msg)) matches StepView::Ask(resetting)
            &&& resetting.request() == RequestView::ErrorReset
            &&& resetting.resume(ResponseView::Nothing) == StepView::<
                CreationView,
                FeatureView,
            >::Done(Err(ErrorView::NullPointer { method_name: "OGR_F_Create"@, msg }))
        }),
{
}

/// A geometry that the native feature does not have is reported, and binds nothing.
///
/// When the native library gives null for an indexed slot, the slot stays
/// unbound and the feature stays as it was, through the whole report: the
/// reaching ends in the error that carries the last error message.
pub proof fn null_geometry_is_reported(feature: FeatureView, idx: usize, msg: Seq<char>)
    requires
        idx < feature.geometry.len(),
        !feature.geometry[idx as int].has_gdal_ptr(),
    ensures
        ({
            let access = GeometryAccessView::Indexed { feature: feature.c_feature, index: idx };
            let (first, failing) = access.resume(feature, ResponseView::Handle(Handle { addr: 0 }));
            &&& first == feature
            &&& failing matches StepView::Ask(failing)
            &&& failing.request() == RequestView::LastErrorMsg
            &&& failing.fits(feature)
            &&& failing.resume(feature, ResponseView::Text(msg)).0 == feature
            &&& failing.resume(feature, ResponseView::Text(msg)).1 matches StepView::Ask(resetting)
            &&& resetting.request() == RequestView::ErrorReset
            &&& resetting.resume(feature, ResponseView::Nothing) == (
                feature,
                StepView::<GeometryAccessView, usize>::Done(
                    Err(ErrorView::NullPointer { method_name: "OGR_F_GetGeomFieldRef"@, msg }),
                ),
            )
        }),
{
}

/// A primary geometry that the native feature does not have is reported, and
/// binds nothing; one that it has is bound once.
///
/// When the native library gives null for the primary geometry, slot 0 stays
/// unbound and the feature stays as it was: the reaching ends in the error
/// that names the native function and carries the last error message. Any
/// other handle is bound to slot 0, no other slot changes, and reaching the
/// primary geometry again asks for nothing.
pub proof fn primary_geometry_is_bound_or_reported(
    feature: FeatureView,
    c_geometry: Handle,
    msg: Seq<char>,
)
    requires
        feature.geometry.len() > 0,
        !feature.geometry[0].has_gdal_ptr(),
    ensures
        ({
            let access = GeometryAccessView::Primary { feature: feature.c_feature };
            let (after, step) = access.resume(feature, ResponseView::Handle(c_geometry));
            &&& feature.geometry() == StepView::<GeometryAccessView, usize>::Ask(access)
            &&& access.fits(feature)
            &&& access.request() == RequestView::GeometryRef { feature: feature.c_feature }
            &&& !c_geometry.is_null() ==> ({
                &&& step == StepView::<GeometryAccessView, usize>::Done(Ok(0))
                &&& after.geometry == feature.geometry.update(0, Geometry::Bound(c_geometry))
                &&& after.geometry() == StepView::<GeometryAccessView, usize>::Done(Ok(0))
            })
            &&& c_geometry.is_null() ==> ({
                &&& after == feature
                &&& step matches StepView::Ask(failing)
                &&& failing.request() == RequestView::LastErrorMsg
                &&& failing.resume(feature, ResponseView::Text(msg)).0 == feature
                &&& failing.resume(feature, ResponseView::Text(msg)).1 matches StepView::Ask(
                    resetting,
                )
                &&& resetting.request() == RequestView::ErrorReset
                &&& resetting.resume(feature, ResponseView::Nothing) == (
                    feature,
                    StepView::<GeometryAccessView, usize>::Done(
                        Err(ErrorView::NullPointer { method_name: "OGR_F_GetGeometryRef"@, msg }),
                    ),
                )
            })
        }),
{
}

/// A field is read only if its type is text, real or integer.
///
/// For any other type code the reading ends in the error that keeps the
/// code, and no getter is called. For each of the three, the getter of that
/// type is the one that is called.
pub proof fn field_type_selects_the_getter(
    feature: Handle,
    index: i32,
    field_defn: Handle,
    field_type: u32,
)
    ensures
        ({
            let classify = FieldReadView::Classify { feature, index, field_defn };
            let step = classify.resume(ResponseView::Code(field_type));
            &&& field_type == OFT_STRING ==> step == StepView::<
                FieldReadView,
                FieldValueView,
            >::Ask(FieldReadView::AsString { feature, index })
            &&& field_type == OFT_REAL ==> step == StepView::<FieldReadView, FieldValueView>::Ask(
                FieldReadView::AsDouble { feature, index },
            )
            &&& field_type == OFT_INTEGER ==> step == StepView::<
                FieldReadView,
                FieldValueView,
            >::Ask(FieldReadView::AsInteger { feature, index })
            &&& (FieldReadView::AsString { feature, index }).request()
                == (RequestView::FieldAsString { feature, index })
            &&& (FieldReadView::AsDouble { feature, index }).request()
                == (RequestView::FieldAsDouble { feature, index })
            &&& (FieldReadView::AsInteger { feature, index }).request()
                == (RequestView::FieldAsInteger { feature, index })
            &&& field_type != OFT_STRING && field_type != OFT_REAL && field_type != OFT_INTEGER
                ==> step == StepView::<FieldReadView, FieldValueView>::Done(
                Err(ErrorView::UnhandledFieldType { field_type, method_name: "OGR_Fld_GetType"@ }),
            )
        }),
{
}

/// A text that holds a zero byte is refused before anything is asked.
///
/// This holds of every operation that takes a text: reading and writing a
/// field, reaching a geometry by name, and making a geometry from text. For
/// a written text value the name is looked at first.
pub proof fn text_is_checked_first(
    feature: FeatureView,
    name: Seq<char>,
    value: FieldValueView,
)
    ensures
        !is_native_text(name) ==> ({
            &&& feature.field(name) == StepView::<FieldReadView, FieldValueView>::Done(
                Err(nul_error(name)),
            )
            &&& feature.set_field(name, value) == StepView::<FieldWriteView, ()>::Done(
                Err(nul_error(name)),
            )
            &&& feature.geometry_by_name(name) == StepView::<GeometryAccessView, usize>::Done(
                Err(nul_error(name)),
            )
            &&& FromWktView::start(name) == StepView::<FromWktView, Geometry>::Done(
                Err(nul_error(name)),
            )
        }),
        is_native_text(name) ==> ({
            &&& feature.field(name) is Ask
            &&& feature.geometry_by_name(name) is Ask
            &&& FromWktView::start(name) is Ask
            &&& feature.set_field(name, value) is Ask <==> is_writable(value)
            &&& !is_writable(value) ==> feature.set_field(name, value) == StepView::<
                FieldWriteView,
                (),
            >::Done(Err(nul_error(value->StringValue_0)))
        }),
{
}

/// A text becomes a geometry if and only if the native library accepts it.
///
/// On the status of success the geometry that was made is freestanding: its
/// holder releases it. On any other status there is no geometry, and the
/// making ends in the error that keeps the status.
pub proof fn text_is_made_into_a_geometry(wkt: Seq<char>, status: u32, object: Handle)
    requires
        is_native_text(wkt),
    ensures
        ({
            let making = FromWktView { wkt };
            let step = making.resume(ResponseView::Made { status, object });
            &&& FromWktView::start(wkt) == StepView::<FromWktView, Geometry>::Ask(making)
            &&& making.request() == RequestView::GeometryFromWkt { wkt }
            &&& status == OGRERR_NONE ==> step == StepView::<FromWktView, Geometry>::Done(
                Ok(Geometry::Owned(object)),
            )
            &&& status != OGRERR_NONE ==> step == StepView::<FromWktView, Geometry>::Done(
                Err(ErrorView::OgrError { err: status, method_name: "OGR_G_CreateFromWkt"@ }),
            )
        }),
{
}

/// The freestanding geometry that `geometry` stands for, if it is one.
pub open spec fn owned_by(geometry: Geometry) -> Multiset<Handle> {
    match geometry {
        Geometry::Owned(h) => Multiset::singleton(h),
        _ => Multiset::empty(),
    }
}

/// The geometry that the setting is about to release, if it is about to.
pub open spec fn dropped_by(step: StepView<GeometryUpdateView, ()>) -> Multiset<Handle> {
    match step {
        StepView::Ask(GeometryUpdateView::Releasing { geometry, .. }) => Multiset::singleton(
            geometry,
        ),
        _ => Multiset::empty(),
    }
}

/// What slots hold is what all but the last hold, and what the last holds.
proof fn owned_in_last(slots: Seq<Geometry>)
    requires
        slots.len() > 0,
    ensures
        owned_in(slots) =~= owned_in(slots.drop_last()).add(owned_by(slots.last())),
{
    broadcast use vstd::multiset::group_multiset_axioms;

}

/// Replacing one slot swaps what it held for what it holds.
proof fn owned_in_update(slots: Seq<Geometry>, i: int, geometry: Geometry)
    requires
        0 <= i < slots.len(),
    ensures
        owned_in(slots.update(i, geometry)).add(owned_by(slots[i])) =~= owned_in(slots).add(
            owned_by(geometry),
        ),
    decreases slots.len(),
{
    broadcast use vstd::multiset::group_multiset_axioms;

    let after = slots.update(i, geometry);
    let front = slots.drop_last();
    owned_in_last(slots);
    owned_in_last(after);
    if i == slots.len() - 1 {
        assert(after.drop_last() =~= front);
    } else {
        owned_in_update(front, i, geometry);
        assert(after.drop_last() =~= front.update(i, geometry));
    }
    assert forall|h: Handle|
        owned_in(after).add(owned_by(slots[i])).count(h) == owned_in(slots).add(
            owned_by(geometry),
        ).count(h) by {
        if i != slots.len() - 1 {
            assert(owned_in(front.update(i, geometry)).add(owned_by(front[i])).count(h)
                == owned_in(front).add(owned_by(geometry)).count(h));
        }
    }
}

/// Setting a geometry loses none and releases none twice.
///
/// Whatever the status, the freestanding geometries that the feature holds
/// after the setting, together with the one that the setting goes on to
/// release, are those that the feature held before together with the one
/// that was handed in.
pub proof fn geometry_changes_hands_once(feature: FeatureView, geom: Geometry, status: u32)
    requires
        geom.has_gdal_ptr(),
        feature.geometry.len() > 0,
    ensures
        ({
            let setting = GeometryUpdateView::Setting { feature: feature.c_feature, geom };
            let (after, step) = setting.resume(feature, ResponseView::Code(status));
            owned_in(after.geometry).add(dropped_by(step)) =~= owned_in(feature.geometry).add(
                owned_by(geom),
            )
        }),
{
    broadcast use vstd::multiset::group_multiset_axioms;

    if status == OGRERR_NONE {
        owned_in_update(feature.geometry, 0, geom);
    }
}

/// Whether, from `step` on, the adding of a feature asks for releases only
/// and ends in `result`.
pub open spec fn winds_down_to(step: StepView<AppendView, ()>, result: Result<(), ErrorView>)
    -> bool {
    match step {
        StepView::Done(end) => end == result,
        StepView::Ask(append) => {
            &&& append.wf()
            &&& append.stage matches StageView::Releasing { result: end, .. }
            &&& end == result
        },
    }
}

/// The feature that the adding holds once `response` was handed to it, if
/// it holds one.
pub open spec fn held_feature(append: AppendView, response: ResponseView) -> Option<FeatureView> {
    match append.stage {
        StageView::Shaping { feature, update } => Some(update.resume(feature, response).0),
        StageView::Filling { feature, .. } => Some(feature),
        StageView::Inserting { feature, .. } => Some(feature),
        _ => None,
    }
}

/// Whatever stage the adding is in, the feature that it holds is released as
/// every feature is: its handle first, then geometries only.
proof fn held_feature_is_released_once(append: AppendView, response: ResponseView)
    ensures
        held_feature(append, response) matches Some(feature) ==> ({
            &&& feature.release().len() >= 1
            &&& feature.release()[0] == (RequestView::FeatureDestroy { feature: feature.c_feature })
            &&& forall|i: int|
                1 <= i < feature.release().len() ==> (#[trigger] feature.release()[i]
                    is GeometryDestroy)
        }),
{
    if let Some(feature) = held_feature(append, response) {
        feature_is_released_once(feature);
    }
}

/// The adding of a feature stays in a state that it can come to.
pub proof fn adding_stays_sound(append: AppendView, response: ResponseView)
    requires
        append.wf(),
        append.accepts(response),
    ensures
        append.resume(response) matches StepView::Ask(next) ==> ({
            &&& next.wf()
            &&& next.layer == append.layer
            &&& next.fields == append.fields
        }),
{
    held_feature_is_released_once(append, response);
}

/// Once the adding winds down, it only releases, and ends as it was to end.
///
/// Every request of the winding down releases a native object: none writes
/// into the feature or into the layer. Each answer brings the next release,
/// or the end, in the result that the winding down started with.
pub proof fn winding_down_only_releases(append: AppendView, response: ResponseView)
    requires
        append.wf(),
        (append.stage is Releasing),
    ensures
        append.request().releases(),
        !append.request().writes_layer(),
        !append.request().writes_feature(),
        winds_down_to(append.resume(response), append.stage->Releasing_result),
        append.resume(response) matches StepView::Ask(next) ==> (next.stage->Releasing_next
            == append.stage->Releasing_next + 1 && next.stage->Releasing_requests
            == append.stage->Releasing_requests),
{
}

/// A feature with a field that the schema lacks is not written into the layer.
///
/// When the native library does not find the name of a field that is to be
/// written (it answers -1), the adding winds down at once: the feature made
/// for it is released, the request that writes into the layer is never made,
/// and the adding ends in the error that carries the name.
pub proof fn unknown_field_is_not_inserted(append: AppendView)
    requires
        append.wf(),
        append.stage matches StageView::Filling { writing, .. } && (writing is Lookup),
    ensures
        ({
            let feature = append.stage->Filling_feature;
            let error = ErrorView::InvalidFieldName {
                field_name: append.stage->Filling_writing->Lookup_name,
                method_name: "set_field_string"@,
            };
            &&& append.accepts(ResponseView::Integer(-1i32))
            &&& !append.request().writes_layer()
            &&& !append.request().writes_feature()
            &&& append.resume(ResponseView::Integer(-1i32)) == AppendView::wind_down(
                append.layer,
                append.fields,
                feature.release(),
                Err(error),
            )
            &&& winds_down_to(append.resume(ResponseView::Integer(-1i32)), Err(error))
            &&& append.resume(ResponseView::Integer(-1i32)) is Ask
        }),
{
    feature_is_released_once(append.stage->Filling_feature);
}

/// Every failure winds the adding down: whatever stage fails, what follows
/// is releases only, and the adding ends in that failure.
pub proof fn failure_winds_down(append: AppendView, response: ResponseView)
    requires
        append.wf(),
        append.accepts(response),
    ensures
        ({
            let step = append.resume(response);
            let failed = match append.stage {
                StageView::Making { creation, .. } => creation.resume(response) matches StepView::Done(
                    Err(_),
                ),
                StageView::Shaping { feature, update } => update.resume(feature, response).1 matches StepView::Done(
                    Err(_),
                ),
                StageView::Filling { writing, .. } => writing.resume(response) matches StepView::Done(
                    Err(_),
                ),
                StageView::Inserting { insert, .. } => insert.resume(response) matches StepView::Done(
                    Err(_),
                ),
                StageView::Releasing { .. } => false,
            };
            failed ==> exists|error: ErrorView| winds_down_to(step, Err(error))
        }),
{
    let step = append.resume(response);
    held_feature_is_released_once(append, response);
    let inner: Option<ErrorView> = match append.stage {
        StageView::Making { creation, .. } => match creation.resume(response) {
            StepView::Done(Err(error)) => Some(error),
            _ => None,
        },
        StageView::Shaping { feature, update } => match update.resume(feature, response).1 {
            StepView::Done(Err(error)) => Some(error),
            _ => None,
        },
        StageView::Filling { writing, .. } => match writing.resume(response) {
            StepView::Done(Err(error)) => Some(error),
            _ => None,
        },
        StageView::Inserting { insert, .. } => match insert.resume(response) {
            StepView::Done(Err(error)) => Some(error),
            _ => None,
        },
        StageView::Releasing { .. } => None,
    };
    if let Some(error) = inner {
        assert(winds_down_to(step, Err(error)));
    }
}

/// The layer is written into last, and only by a feature that is complete.
///
/// The one request that writes into the layer is that of the inserting
/// stage. The adding comes to that stage only from the storing of the last
/// field, or, where there are no fields, from the setting of the geometry.
/// Whatever the status of the writing, the feature is released after it.
pub proof fn layer_is_written_last(append: AppendView, response: ResponseView)
    requires
        append.wf(),
        append.accepts(response),
    ensures
        append.request().writes_layer() <==> (append.stage is Inserting),
        append.resume(response) matches StepView::Ask(next) && next.stage is Inserting ==> ({
            ||| append.stage matches StageView::Filling { next: position, writing, .. }
                && position == append.fields.len() && writing is Store
            ||| append.stage is Shaping && append.fields.len() == 0
        }),
        append.stage matches StageView::Inserting { feature, insert } ==> ({
            &&& response is Code
            &&& append.resume(response) == AppendView::wind_down(
                append.layer,
                append.fields,
                feature.release(),
                status_result(response->Code_0, "OGR_L_CreateFeature"@),
            )
            &&& append.resume(response) is Ask
        }),
{
    held_feature_is_released_once(append, response);
}

/// The requests that the adding makes from `step` on when it is handed
/// `answers` in order, and what it ends in, if it ends before they run out.
pub open spec fn run(step: StepView<AppendView, ()>, answers: Seq<ResponseView>) -> (
    Seq<RequestView>,
    Option<Result<(), ErrorView>>,
)
    decreases answers.len(),
{
    match step {
        StepView::Done(result) => (Seq::empty(), Some(result)),
        StepView::Ask(append) => {
            if answers.len() == 0 {
                (seq![append.request()], None)
            } else {
                let (later, end) = run(append.resume(answers[0]), answers.drop_first());
                (seq![append.request()] + later, end)
            }
        },
    }
}

/// From the winding down on, whatever the answers, nothing is made but
/// releases, and the adding can only end as it was to end.
pub proof fn winding_down_runs_to_its_result(
    step: StepView<AppendView, ()>,
    result: Result<(), ErrorView>,
    answers: Seq<ResponseView>,
)
    requires
        winds_down_to(step, result),
    ensures
        forall|i: int|
            0 <= i < run(step, answers).0.len() ==> (#[trigger] run(step, answers).0[i]).releases(),
        forall|i: int|
            0 <= i < run(step, answers).0.len() ==> !(#[trigger] run(
                step,
                answers,
            ).0[i]).writes_layer(),
        run(step, answers).1 matches Some(end) ==> end == result,
    decreases answers.len(),
{
    if let StepView::Ask(append) = step {
        if answers.len() > 0 {
            winding_down_only_releases(append, answers[0]);
            winding_down_runs_to_its_result(
                append.resume(answers[0]),
                result,
                answers.drop_first(),
            );
        } else {
            winding_down_only_releases(append, ResponseView::Nothing);
        }
    }
}

/// No answers bring a feature with an unknown field into the layer.
///
/// Once the native library has not found the name of a field that is to be
/// written, no request that follows writes into the layer, whatever the
/// native library answers from then on: every one of them is a release. If
/// the adding ends, it ends in the error that carries the name.
pub proof fn unknown_field_leaves_the_layer_as_it_was(
    append: AppendView,
    answers: Seq<ResponseView>,
)
    requires
        append.wf(),
        append.stage matches StageView::Filling { writing, .. } && (writing is Lookup),
    ensures
        ({
            let after = run(append.resume(ResponseView::Integer(-1i32)), answers);
            let error = ErrorView::InvalidFieldName {
                field_name: append.stage->Filling_writing->Lookup_name,
                method_name: "set_field_string"@,
            };
            &&& forall|i: int| 0 <= i < after.0.len() ==> !(#[trigger] after.0[i]).writes_layer()
            &&& forall|i: int| 0 <= i < after.0.len() ==> (#[trigger] after.0[i]).releases()
            &&& after.1 matches Some(end) ==> end == Err::<(), ErrorView>(error)
        }),
{
    unknown_field_is_not_inserted(append);
    let error = ErrorView::InvalidFieldName {
        field_name: append.stage->Filling_writing->Lookup_name,
        method_name: "set_field_string"@,
    };
    winding_down_runs_to_its_result(
        append.resume(ResponseView::Integer(-1i32)),
        Err(error),
        answers,
    );
}

/// The feature that the adding holds as it stands, if it holds one.
pub open spec fn staged_feature(append: AppendView) -> Option<FeatureView> {
    match append.stage {
        StageView::Shaping { feature, .. } => Some(feature),
        StageView::Filling { feature, .. } => Some(feature),
        StageView::Inserting { feature, .. } => Some(feature),
        _ => None,
    }
}

/// Giving the adding up releases, and nothing else.
///
/// Whatever stage the adding is given up in, every call that it names
/// releases a native object: none writes into a feature or into the layer.
/// A feature that the adding holds is released once, by its handle.
pub proof fn giving_up_only_releases(append: AppendView)
    requires
        append.wf(),
    ensures
        forall|i: int|
            0 <= i < append.abandon().len() ==> (#[trigger] append.abandon()[i]).releases(),
        forall|i: int|
            0 <= i < append.abandon().len() ==> !(#[trigger] append.abandon()[i]).writes_layer(),
{
    if let Some(feature) = staged_feature(append) {
        feature_is_released_once(feature);
    }
}

} // verus!
