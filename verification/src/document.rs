//! The bootstrap document as a wire root. The document itself is a vector of
//! bootstrap operations; when it crosses the wire on its own it is carried
//! as a record whose one field is that vector, so its wire value is a
//! product of one sequence, like every other record root.

use vstd::prelude::*;

use crate::contract::RouterBootstrapDocument;
use crate::wire::{lemma_models_of, models_of, wire_models, WireModel, WireShape, WireShapeError, WireValue};

verus! {

/// The wire root of a bootstrap document: the document's operations, in
/// order, as the one field of a record.
#[derive(Clone, Debug, PartialEq, Eq)]
pub struct BootstrapDocumentRecord {
    pub operations: RouterBootstrapDocument,
}

impl BootstrapDocumentRecord {
    /// The wire root that carries this document.
    pub fn new(operations: RouterBootstrapDocument) -> (record: Self)
        ensures
            record.operations == operations,
    {
        BootstrapDocumentRecord { operations }
    }

    /// The document this wire root carries.
    pub fn into_document(self) -> (operations: RouterBootstrapDocument)
        ensures
            operations == self.operations,
    {
        self.operations
    }
}

impl WireShape for BootstrapDocumentRecord {
    open spec fn wire_model(&self) -> WireModel {
        WireModel::Product(seq![self.operations.wire_model()])
    }

    open spec fn decodes(model: WireModel) -> bool {
        match model {
            WireModel::Product(parts) => {
                &&& parts.len() == 1
                &&& <RouterBootstrapDocument as WireShape>::decodes(parts[0])
            },
            _ => false,
        }
    }

    fn to_wire(&self) -> (wire: WireValue) {
        let fields = vec![self.operations.to_wire()];
        proof {
            lemma_models_of(fields@);
            assert(models_of(fields@) =~= seq![self.operations.wire_model()]);
        }
        WireValue::Product(fields)
    }

    fn from_wire(value: WireValue) -> (restored: Result<Self, WireShapeError>) {
        let ghost whole = value.model();
        match value {
            WireValue::Product(fields) => {
                proof {
                    lemma_models_of(fields@);
                }
                if fields.len() != 1 {
                    return Err(WireShapeError);
                }
                let ghost parts = fields@;
                let mut fields = fields;
                let w0 = fields.remove(0);
                assert(w0 == parts[0]);
                let operations = match <RouterBootstrapDocument as WireShape>::from_wire(w0) {
                    Ok(v) => v,
                    Err(e) => {
                        return Err(e);
                    },
                };
                let restored = BootstrapDocumentRecord { operations };
                assert(whole->Product_0 =~= seq![restored.operations.wire_model()]);
                Ok(restored)
            },
            _ => Err(WireShapeError),
        }
    }

    proof fn lemma_projection_decodes(&self) {
        self.operations.lemma_projection_decodes();
    }
}

/// The wire model of a document's root: a product whose one field is the
/// sequence of the operations' projections, in order.
pub open spec fn document_root_model(document: RouterBootstrapDocument) -> WireModel {
    WireModel::Product(seq![WireModel::Sequence(wire_models(document@))])
}

/// A bootstrap document crosses the wire as a product of exactly one field,
/// the sequence of its operations' projections in order.
pub proof fn law_document_root_is_a_record(document: RouterBootstrapDocument)
    ensures
        (BootstrapDocumentRecord { operations: document }).wire_model() == document_root_model(document),
{
}

} // verus!
