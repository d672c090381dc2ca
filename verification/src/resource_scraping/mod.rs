//! Reading CloudFormation's documentation of resources, and writing the Rust source of their
//! DTOs and builders from it.
mod codegen;
mod generate;
mod html;
mod pages;
mod props;

pub use props::{
    checked_props_info, custom_type_captures, description_reaches_unknown_prefix, description_state, description_step,
    first_field, is_helper, is_helper_line, prop_info_of, prop_reaches_unknown_prefix, prop_views, props_info,
    props_info_of, props_reach_unknown_prefix, rust_type_for, unknown_type_prefix, DescriptionState, PropInfo,
    PropInfoView,
};
pub use codegen::{
    build_method_source, build_prop, builder, builder_source, constructor_args, field_definition, field_init,
    main_struct, main_struct_source, main_struct_sources, optional_setter, optional_setters, prop_source, props,
    props_sources, snake_case_of, type_struct_source, with_id,
};
pub use pages::{
    category_links, cleaned_info, group_prop_infos, group_views, grouping, grouping_start, grouping_step,
    ignored_categories, prop_entry, relative_link, resource_category_links, resource_line, resource_line_of, resource_links,
    skipped_categories_never_kept, GroupingState,
};
pub use generate::{
    builder_imports, dto_file_head, dto_fold, dto_imports, dto_module_source, dto_pieces, duplicate_helper_note, gen_start, gen_state, gen_step, gen_step_stops, gen_stops,
    generate_group, group_sources_of, helper_name, helper_step, helper_step_stops, helper_struct_source,
    lowercase_of, module_source, prop_fields, properties_struct_source, resource_imports, resource_step,
    resource_step_stops, sources_view, GenState, Generation, GroupSources, GroupSourcesView,
};
pub use html::{
    all_present, find_resource_categories, first_list_hrefs, first_variable_list, get_specific_resource,
    group_page_hrefs, opt_views, page_title, present, retrieve_resource_props,
};
