//! The option-tag builders: the fixed catalogues and the selections made for
//! one record.

use yay_crm::general::{
    create_option_tags_info_for_services_and_funnel, create_role_tags_for_users,
    create_school_level_tags, get_options_and_services, get_roles_tag, get_school_level_tags,
};
use yay_crm::crud::Stored;
use yay_crm::sales::{SalesFunnel, SchoolLevel, ServicesOffered};
use yay_crm::school;
use yay_crm::school::School;
use yay_crm::users::Roles;

#[test]
fn the_service_and_funnel_catalogues_are_fixed() {
    let (services, funnel) = get_options_and_services();
    assert_eq!(services.len(), 5);
    assert_eq!(services[0].value, ServicesOffered::BRANDING);
    assert_eq!(services[0].text, "BRANDING");
    assert_eq!(services[0].icon.as_deref(), Some("fas fa-copyright"));
    assert_eq!(services[4].value, ServicesOffered::SALESMANAGEMENT);
    assert_eq!(services[4].text, "SALES MANAGEMENT");
    assert_eq!(services[4].icon.as_deref(), Some("far fa-money-bill-alt"));
    assert!(services.iter().all(|t| !t.selected));

    assert_eq!(funnel.len(), 7);
    assert_eq!(funnel[0].value, SalesFunnel::LOST);
    assert_eq!(funnel[0].text, "Perdido 0%");
    assert_eq!(funnel[0].css.as_deref(), Some("is-lost"));
    assert_eq!(funnel[2].text, "Investigación 10%");
    assert_eq!(funnel[2].icon.as_deref(), Some("fas fa-user-secret"));
    assert_eq!(funnel[6].value, SalesFunnel::WIN);
    assert_eq!(funnel[6].text, "Ganado 100%");
    assert!(funnel.iter().all(|t| !t.selected));
}

#[test]
fn selections_follow_the_record() {
    let (services, funnel) = create_option_tags_info_for_services_and_funnel(
        vec![ServicesOffered::BRANDING, ServicesOffered::SALESMANAGEMENT],
        SalesFunnel::QUOTE,
    );
    let picked: Vec<ServicesOffered> =
        services.iter().filter(|t| t.selected).map(|t| t.value).collect();
    assert_eq!(picked, vec![ServicesOffered::BRANDING, ServicesOffered::SALESMANAGEMENT]);
    let staged: Vec<SalesFunnel> = funnel.iter().filter(|t| t.selected).map(|t| t.value).collect();
    assert_eq!(staged, vec![SalesFunnel::QUOTE]);
}

#[test]
fn no_selection_when_the_record_offers_nothing() {
    let (services, funnel) =
        create_option_tags_info_for_services_and_funnel(vec![], SalesFunnel::LOST);
    assert!(services.iter().all(|t| !t.selected));
    let staged: Vec<SalesFunnel> = funnel.iter().filter(|t| t.selected).map(|t| t.value).collect();
    assert_eq!(staged, vec![SalesFunnel::LOST]);
}

#[test]
fn the_school_level_catalogue_is_fixed_and_selectable() {
    let levels = get_school_level_tags();
    assert_eq!(levels.len(), 7);
    assert_eq!(levels[0].value, SchoolLevel::NURSERY);
    assert_eq!(levels[0].text, "Guardería");
    assert_eq!(levels[5].text, "Escuela Técnica");
    assert!(levels.iter().all(|t| !t.selected));

    let chosen = create_school_level_tags(vec![SchoolLevel::KINDER, SchoolLevel::UNIVERSITY]);
    let picked: Vec<SchoolLevel> = chosen.iter().filter(|t| t.selected).map(|t| t.value).collect();
    assert_eq!(picked, vec![SchoolLevel::KINDER, SchoolLevel::UNIVERSITY]);
}

#[test]
fn table_rows_pair_each_record_with_its_selections() {
    let mk = |uuid: &str, funnel: SalesFunnel, services: Vec<ServicesOffered>| Stored {
        uuid: uuid.to_string(),
        deleted: false,
        date_created: 1,
        date_modified: 1,
        fields: School {
            name: "Ana".to_string(),
            last_name: "Ruiz".to_string(),
            school_name: "Colegio Real".to_string(),
            school_level: vec![SchoolLevel::KINDER],
            email: "direccion@colegio.edu".to_string(),
            phone: "5550002".to_string(),
            fb: None,
            instagram: None,
            linked_in: None,
            tik_tok: None,
            twitter: None,
            first_contact_date: None,
            sales_funnel: funnel,
            notes: String::new(),
            services_offered: services,
            created_by: None,
            modified_by: None,
        },
    };
    let rows = school::general_tags(vec![
        mk("one", SalesFunnel::QUOTE, vec![ServicesOffered::BRANDING]),
        mk("two", SalesFunnel::WIN, vec![]),
    ]);
    assert_eq!(rows.len(), 2);
    assert_eq!(rows[0].section.uuid, "one");
    let picked: Vec<ServicesOffered> =
        rows[0].services_tag.iter().filter(|t| t.selected).map(|t| t.value).collect();
    assert_eq!(picked, vec![ServicesOffered::BRANDING]);
    let staged: Vec<SalesFunnel> =
        rows[0].funnel_tag.iter().filter(|t| t.selected).map(|t| t.value).collect();
    assert_eq!(staged, vec![SalesFunnel::QUOTE]);
    assert_eq!(rows[1].section.uuid, "two");
    assert!(rows[1].services_tag.iter().all(|t| !t.selected));
    let staged_two: Vec<SalesFunnel> =
        rows[1].funnel_tag.iter().filter(|t| t.selected).map(|t| t.value).collect();
    assert_eq!(staged_two, vec![SalesFunnel::WIN]);
}

#[test]
fn the_role_catalogue_is_fixed_and_selectable() {
    let roles = get_roles_tag();
    assert_eq!(roles.len(), 2);
    assert_eq!(roles[0].value, Roles::EDITOR);
    assert_eq!(roles[0].text, "EDITOR");
    assert_eq!(roles[1].value, Roles::ADMIN);
    assert_eq!(roles[1].text, "ADMIN");
    assert!(roles.iter().all(|t| !t.selected));

    let chosen = create_role_tags_for_users(Roles::ADMIN);
    assert!(!chosen[0].selected);
    assert!(chosen[1].selected);
}
