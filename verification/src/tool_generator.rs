//! How a declared tool's reply formatting is put together from its
//! definition.

use vstd::prelude::*;
use crate::response_formatter::{FieldExtractor, ResponseFormatterFactory, convert_extractor_type, extractor_for, fields_data};
use crate::tool_definitions::{FormatterDef, FormatterType, ResponseField};

verus! {

/// The success fields a definition asks for, each with the extractor its
/// extractor type stands for.
pub open spec fn definition_fields(fields: Seq<ResponseField>) -> Seq<(Seq<char>, FieldExtractor)> {
    Seq::new(fields.len(), |i: int| (fields[i].name@, extractor_for(fields[i].extractor)))
}

/// The reply formatting of a declared tool: errors name the entity or the
/// resource for entity and resource operations; the template is used where
/// one is given; the declared fields are added; errors are formatted the
/// default way.
pub fn formatter_factory_for(def: &FormatterDef) -> (r: ResponseFormatterFactory)
    ensures
        r.config.use_default_error,
        match r.config.success_template {
            Some(t) => def.template@.len() > 0 && t@ == def.template@,
            None => def.template@.len() == 0,
        },
        fields_data(r.config.success_fields@) == definition_fields(def.response_fields@),
        fields_data(r.config.error_metadata_fields@) == match def.formatter_type {
            FormatterType::EntityOperation(_) => seq![("entity"@, FieldExtractor::EntityFromParams)],
            FormatterType::ResourceOperation => seq![("resource"@, FieldExtractor::ResourceFromParams)],
            FormatterType::Simple => Seq::empty(),
        },
{
    let mut builder = match def.formatter_type {
        FormatterType::EntityOperation(field) => ResponseFormatterFactory::entity_operation(field),
        FormatterType::ResourceOperation => ResponseFormatterFactory::resource_operation(""),
        FormatterType::Simple => ResponseFormatterFactory::list_operation(),
    };
    if def.template.unicode_len() > 0 {
        builder = builder.with_template(String::from_str(def.template));
    }
    let mut i: usize = 0;
    while i < def.response_fields.len()
        invariant
            i <= def.response_fields.len(),
            fields_data(builder.config.success_fields@) == definition_fields(def.response_fields@.subrange(0, i as int)),
            match builder.config.success_template {
                Some(t) => def.template@.len() > 0 && t@ == def.template@,
                None => def.template@.len() == 0,
            },
            fields_data(builder.config.error_metadata_fields@) == match def.formatter_type {
                FormatterType::EntityOperation(_) => seq![("entity"@, FieldExtractor::EntityFromParams)],
                FormatterType::ResourceOperation => seq![("resource"@, FieldExtractor::ResourceFromParams)],
                FormatterType::Simple => Seq::<(Seq<char>, FieldExtractor)>::empty(),
            },
        decreases def.response_fields.len() - i,
    {
        let field = &def.response_fields[i];
        let ghost before = definition_fields(def.response_fields@.subrange(0, i as int));
        builder = builder.with_response_field(String::from_str(field.name), convert_extractor_type(&field.extractor));
        assert(definition_fields(def.response_fields@.subrange(0, i + 1)) =~= before.push((field.name@, extractor_for(field.extractor))));
        i += 1;
    }
    assert(def.response_fields@.subrange(0, def.response_fields.len() as int) =~= def.response_fields@);
    builder.with_default_error().build()
}

} // verus!
