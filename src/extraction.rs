//! Extraction: turning views into a backend's own output.
//!
//! Two paths lead there. The static path is the `ViewExtractor` trait, which
//! a backend implements once per view type; composite impls for options and
//! tuples recurse through it, so a whole statically typed tree is extracted
//! by one generic call. The dynamic path is the `ViewRegistry`: a table of the
//! view types a backend registered, keyed by type key, through which a view
//! whose type is known only at run time (an `AnyView`) is extracted and, where
//! a converter was registered, converted into the backend's uniform output.
//!
//! The registry stores which extractors and converters exist; the backend
//! supplies the code behind each entry through `DynamicExtractor`, which
//! dispatches on the entry's key. Extraction and conversion are separate
//! steps: `extract_dynamic` runs the extractor alone, and
//! `extract_and_convert` then applies the converter of the view's type, if
//! one is registered.

use std::collections::HashSet;
use vstd::prelude::*;

use crate::view::{AnyView, DynamicView, TypeKey};

verus! {

broadcast use vstd::std_specs::hash::group_hash_axioms;

/// Why an extraction failed.
#[derive(Clone, Copy, PartialEq, Eq, Debug)]
pub enum ExtractionError {
    /// The registry has no extractor for the type of the view met.
    UnregisteredType {
        /// The name of that type.
        type_label: &'static str,
        /// Its key.
        type_id: TypeKey,
    },
    /// An extractor was handed a view of another type than its own: the
    /// registry's bookkeeping is broken.
    DowncastFailed {
        /// The type the extractor expected.
        expected_type: &'static str,
        /// The key of the type it was handed.
        actual_type_id: TypeKey,
    },
    /// A converter, or a caller of the registry, was handed an output of
    /// another type than the one it expected.
    OutputDowncastFailed {
        /// The output type that was expected.
        expected_type: &'static str,
    },
}

/// The result of an extraction.
pub type ExtractionResult<T> = Result<T, ExtractionError>;

/// An extraction result with its output seen structurally (containers as
/// sequences): two results are alike exactly when these are equal.
pub open spec fn result_model<T: DeepView>(r: ExtractionResult<T>) -> ExtractionResult<T::V> {
    match r {
        Ok(o) => Ok(o.deep_view()),
        Err(e) => Err(e),
    }
}

/// Configuration shared by every extraction of one pass (theme, fonts,
/// viewport); it carries nothing yet.
#[derive(Clone, Copy, PartialEq, Eq, Debug, Structural)]
pub struct RenderContext {}

impl RenderContext {
    /// A context with the default settings.
    pub fn new() -> (c: RenderContext)
        ensures
            c == (RenderContext {}),
    {
        RenderContext {}
    }
}

impl Default for RenderContext {
    fn default() -> (c: RenderContext)
        ensures
            c == (RenderContext {}),
    {
        RenderContext::new()
    }
}

/// The static extraction contract: how a backend turns a view of type `V`
/// into its own output. Extraction is pure and total: its result is a
/// function of the view and the context alone.
pub trait ViewExtractor<V: crate::view::View> {
    /// What the backend makes of a `V`.
    type Output: DeepView;

    /// The result of extracting `view` under `ctx`, seen structurally.
    spec fn spec_extract(view: V, ctx: RenderContext) -> ExtractionResult<
        <Self::Output as DeepView>::V,
    >;

    /// Extracts `view` under `ctx`.
    fn extract(view: &V, ctx: &RenderContext) -> (r: ExtractionResult<Self::Output>)
        ensures
            result_model(r) == Self::spec_extract(*view, *ctx),
    ;
}

/// The code behind a registry's entries: for each registered key, the
/// extractor that downcasts an `AnyView` to that key's type and extracts it,
/// and the converter that turns its output into the backend's uniform output.
pub trait DynamicExtractor {
    /// The type-erased output: every output that the backend's extractors
    /// and converters produce.
    type Erased: DeepView;

    /// The result of the extractor registered under `key`, applied to `view`.
    spec fn spec_extract_erased(key: TypeKey, view: AnyView, ctx: RenderContext) -> ExtractionResult<
        <Self::Erased as DeepView>::V,
    >;

    /// Applies the extractor registered under `key` to `view`. Handed a view
    /// of the key's own type, its downcast cannot fail.
    fn extract_erased(key: TypeKey, view: &AnyView, ctx: &RenderContext) -> (r: ExtractionResult<
        Self::Erased,
    >)
        ensures
            result_model(r) == Self::spec_extract_erased(key, *view, *ctx),
            key == view.spec_type_key() ==> !(r matches Err(
                ExtractionError::DowncastFailed { .. },
            )),
    ;

    /// The result of the converter registered under `key`, applied to
    /// `output`.
    spec fn spec_convert_erased(key: TypeKey, output: <Self::Erased as DeepView>::V) -> ExtractionResult<
        <Self::Erased as DeepView>::V,
    >;

    /// Applies the converter registered under `key` to `output`.
    fn convert_erased(key: TypeKey, output: Self::Erased) -> (r: ExtractionResult<Self::Erased>)
        ensures
            result_model(r) == Self::spec_convert_erased(key, output.deep_view()),
    ;
}

/// Dynamic extraction of `view` by backend `B` through a registry with the
/// given extractors: `UnregisteredType` unless the view's key is registered;
/// otherwise what the extractor registered under that key makes of it. No
/// converter takes part.
pub open spec fn spec_extract_dynamic<B: DynamicExtractor>(
    registered: Set<TypeKey>,
    view: AnyView,
    ctx: RenderContext,
) -> ExtractionResult<<B::Erased as DeepView>::V> {
    let key = view.spec_type_key();
    if !registered.contains(key) {
        Err(ExtractionError::UnregisteredType { type_label: view.spec_type_label(), type_id: key })
    } else {
        B::spec_extract_erased(key, view, ctx)
    }
}

/// Dynamic extraction of `view`, followed by the converter of its type when
/// one is registered; without one, the extracted output passes unchanged.
pub open spec fn spec_extract_and_convert<B: DynamicExtractor>(
    registered: Set<TypeKey>,
    converted: Set<TypeKey>,
    view: AnyView,
    ctx: RenderContext,
) -> ExtractionResult<<B::Erased as DeepView>::V> {
    match spec_extract_dynamic::<B>(registered, view, ctx) {
        Ok(o) => if converted.contains(view.spec_type_key()) {
            B::spec_convert_erased(view.spec_type_key(), o)
        } else {
            Ok(o)
        },
        Err(e) => Err(e),
    }
}

/// The dynamic dispatch table: which view types have an extractor, and which
/// of those a converter into the backend's uniform output. Each type appears
/// at most once; there is no order among entries and no subtype matching.
pub struct ViewRegistry {
    extractors: HashSet<TypeKey>,
    converters: HashSet<TypeKey>,
}

impl ViewRegistry {
    /// The keys of the types with a registered extractor.
    pub closed spec fn registered(&self) -> Set<TypeKey> {
        self.extractors@
    }

    /// The keys of the types with a registered converter.
    pub closed spec fn converted(&self) -> Set<TypeKey> {
        self.converters@
    }

    /// Both key sets are finite, and every converter belongs to a registered
    /// type.
    pub open spec fn wf(&self) -> bool {
        &&& self.registered().finite()
        &&& self.converted().finite()
        &&& self.converted().subset_of(self.registered())
    }

    /// An empty registry.
    pub fn new() -> (r: ViewRegistry)
        ensures
            r.registered() == Set::<TypeKey>::empty(),
            r.converted() == Set::<TypeKey>::empty(),
            r.wf(),
    {
        ViewRegistry { extractors: HashSet::new(), converters: HashSet::new() }
    }

    /// Registers the extractor of view type `V`, whose code backend `B`
    /// supplies; a second registration of `V` replaces the first.
    pub fn register<V: DynamicView, B: DynamicExtractor>(&mut self)
        ensures
            final(self).registered() == old(self).registered().insert(V::spec_type_key()),
            final(self).converted() == old(self).converted(),
            old(self).wf() ==> final(self).wf(),
            old(self).wf() ==> final(self).registered().len() == old(self).registered().len() + if old(
                self,
            ).registered().contains(V::spec_type_key()) {
                0int
            } else {
                1int
            },
    {
        let key = V::type_key();
        self.extractors.insert(key);
    }

    /// Registers a converter for the output of view type `V`, whose extractor
    /// must be registered first. Extraction alone is unaffected by it.
    pub fn register_converter<V: DynamicView>(&mut self)
        requires
            old(self).registered().contains(V::spec_type_key()),
        ensures
            final(self).registered() == old(self).registered(),
            final(self).converted() == old(self).converted().insert(V::spec_type_key()),
            old(self).wf() ==> final(self).wf(),
    {
        let key = V::type_key();
        self.converters.insert(key);
    }

    /// Whether view type `V` has a registered extractor.
    pub fn is_registered<V: DynamicView>(&self) -> (r: bool)
        ensures
            r == self.registered().contains(V::spec_type_key()),
    {
        let key = V::type_key();
        self.extractors.contains(&key)
    }

    /// Extracts `view`, whose type is known only at run time, with the
    /// extractor registered for its type; the output is type-erased and no
    /// converter is applied.
    pub fn extract_dynamic<B: DynamicExtractor>(&self, view: &AnyView, ctx: &RenderContext) -> (r:
        ExtractionResult<B::Erased>)
        ensures
            result_model(r) == spec_extract_dynamic::<B>(self.registered(), *view, *ctx),
            !(r matches Err(ExtractionError::DowncastFailed { .. })),
    {
        let key = view.type_key();
        if !self.extractors.contains(&key) {
            return Err(
                ExtractionError::UnregisteredType { type_label: view.type_label(), type_id: key },
            );
        }
        B::extract_erased(key, view, ctx)
    }

    /// Extracts `view` like `extract_dynamic`, then applies the converter
    /// registered for its type, if there is one; otherwise the extracted
    /// output passes through unchanged.
    pub fn extract_and_convert<B: DynamicExtractor>(
        &self,
        view: &AnyView,
        ctx: &RenderContext,
    ) -> (r: ExtractionResult<B::Erased>)
        ensures
            result_model(r) == spec_extract_and_convert::<B>(
                self.registered(),
                self.converted(),
                *view,
                *ctx,
            ),
    {
        let extracted = self.extract_dynamic::<B>(view, ctx)?;
        let key = view.type_key();
        if self.converters.contains(&key) {
            B::convert_erased(key, extracted)
        } else {
            Ok(extracted)
        }
    }

    /// The number of view types with a registered extractor.
    pub fn len(&self) -> (r: usize)
        ensures
            r == self.registered().len(),
    {
        self.extractors.len()
    }

    /// Whether no view type is registered.
    pub fn is_empty(&self) -> (r: bool)
        ensures
            r == self.registered().is_empty(),
            self.wf() ==> (r == (self.registered().len() == 0)),
    {
        proof {
            if self.wf() && self.registered().len() == 0 {
                self.registered().lemma_len0_is_empty();
            }
        }
        self.extractors.is_empty()
    }
}

/// Extraction is deterministic: extracting the same view twice under the
/// same context gives structurally equal results.
pub proof fn law_extract_deterministic<V: crate::view::View, B: ViewExtractor<V>>(
    view: V,
    ctx: RenderContext,
    first: ExtractionResult<B::Output>,
    second: ExtractionResult<B::Output>,
)
    requires
        result_model(first) == B::spec_extract(view, ctx),
        result_model(second) == B::spec_extract(view, ctx),
    ensures
        result_model(first) == result_model(second),
{
}

/// A view type is registered exactly once it has been registered: a fresh
/// registry knows no type, and after `register::<V, _>()` the registry
/// reports `V` as registered.
pub proof fn law_registration_visible<V: DynamicView>(fresh: ViewRegistry, after: ViewRegistry)
    requires
        fresh.registered() == Set::<TypeKey>::empty(),
        after.registered() == fresh.registered().insert(V::spec_type_key()),
    ensures
        !fresh.registered().contains(V::spec_type_key()),
        after.registered().contains(V::spec_type_key()),
{
}

/// Dynamic extraction of a view whose type was never registered fails with
/// `UnregisteredType`, naming that type, whatever the backend; so does
/// extraction followed by conversion.
pub proof fn law_unregistered_type_fails<B: DynamicExtractor>(
    registered: Set<TypeKey>,
    converted: Set<TypeKey>,
    view: AnyView,
    ctx: RenderContext,
)
    requires
        !registered.contains(view.spec_type_key()),
    ensures
        spec_extract_dynamic::<B>(registered, view, ctx) == Err::<
            <B::Erased as DeepView>::V,
            ExtractionError,
        >(
            ExtractionError::UnregisteredType {
                type_label: view.spec_type_label(),
                type_id: view.spec_type_key(),
            },
        ),
        spec_extract_and_convert::<B>(registered, converted, view, ctx) == Err::<
            <B::Erased as DeepView>::V,
            ExtractionError,
        >(
            ExtractionError::UnregisteredType {
                type_label: view.spec_type_label(),
                type_id: view.spec_type_key(),
            },
        ),
{
}

/// Registering a type other than `V` leaves `V` unregistered: from a fresh
/// registry, `V` stays unknown until `register::<V, _>()` is called.
pub proof fn law_other_registration_keeps_unregistered<V: DynamicView, W: DynamicView>(
    before: ViewRegistry,
    after: ViewRegistry,
)
    requires
        V::spec_type_key() != W::spec_type_key(),
        after.registered() == before.registered().insert(W::spec_type_key()),
    ensures
        after.registered().contains(V::spec_type_key()) == before.registered().contains(
            V::spec_type_key(),
        ),
{
}

/// Converters are optional and separate from extraction: registering one
/// changes neither which types are registered nor what dynamic extraction
/// returns, for any backend and any view.
pub proof fn law_converter_leaves_extraction_unchanged<B: DynamicExtractor>(
    before: ViewRegistry,
    after: ViewRegistry,
    view: AnyView,
    ctx: RenderContext,
)
    requires
        after.registered() == before.registered(),
    ensures
        spec_extract_dynamic::<B>(after.registered(), view, ctx) == spec_extract_dynamic::<B>(
            before.registered(),
            view,
            ctx,
        ),
        after.registered().len() == before.registered().len(),
{
}

} // verus!
