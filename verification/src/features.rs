//! The optional workspace capabilities a run may need.

use vstd::prelude::*;
use crate::modes::TraversalMode;

verus! {

/// An optional analysis capability the downstream workspace can enable.
#[derive(Debug, Clone, Copy, PartialEq, Eq, Structural)]
pub enum FeatureName {
    Format,
    Lint,
    OrganizeImports,
    Search,
}

/// The minimal set of capabilities each traversal mode needs: formatting for
/// `Format`, linting for `Lint`, the full union for `Check` and `CI`, search
/// for `Search`, and nothing for `Migrate`, which runs entirely outside the
/// capability-gated pipeline.
pub open spec fn spec_features(m: TraversalMode) -> Seq<FeatureName> {
    match m {
        TraversalMode::Format { .. } => seq![FeatureName::Format],
        TraversalMode::Lint { .. } => seq![FeatureName::Lint],
        TraversalMode::Check { .. } => seq![
            FeatureName::OrganizeImports,
            FeatureName::Format,
            FeatureName::Lint,
        ],
        TraversalMode::CI { .. } => seq![
            FeatureName::OrganizeImports,
            FeatureName::Format,
            FeatureName::Lint,
        ],
        TraversalMode::Migrate { .. } => Seq::empty(),
        TraversalMode::Search { .. } => seq![FeatureName::Search],
    }
}

/// Feature resolution returns exactly the documented set for every variant;
/// in particular `Migrate` always resolves to the empty set.
pub proof fn lemma_features_by_variant(m: TraversalMode)
    ensures
        m matches TraversalMode::Format { .. } ==> spec_features(m) =~= seq![
            FeatureName::Format,
        ],
        m matches TraversalMode::Lint { .. } ==> spec_features(m) =~= seq![FeatureName::Lint],
        m matches TraversalMode::Check { .. } ==> spec_features(m) =~= seq![
            FeatureName::OrganizeImports,
            FeatureName::Format,
            FeatureName::Lint,
        ],
        m matches TraversalMode::CI { .. } ==> spec_features(m) =~= seq![
            FeatureName::OrganizeImports,
            FeatureName::Format,
            FeatureName::Lint,
        ],
        m matches TraversalMode::Migrate { .. } ==> spec_features(m) =~= Seq::<
            FeatureName,
        >::empty(),
        m matches TraversalMode::Search { .. } ==> spec_features(m) =~= seq![
            FeatureName::Search,
        ],
{
}

} // verus!
