use veruna::data::{
    first_count, read_by_parent_query, site_read_plan, user_id_of, CreatePageQuery, DataError,
    RecordId,
};
use veruna::pages::{PageCreateTrait, PageId};
use veruna::sites::{SiteIdBuilder, SiteIdBuilderImpl, SiteReadOption};
use veruna::users::User;
use veruna::{DataError as DataErrorTrait, RecordId as RecordIdTrait};

#[test]
fn read_by_parent_query_text() {
    let q = read_by_parent_query("about", &PageId { value: "abc".to_string() });
    assert_eq!(q, "SELECT * FROM pages WHERE code = \"about\" AND parent = \"pages:abc\"");
}

#[test]
fn site_read_plan_by_domain_and_by_id() {
    assert_eq!(site_read_plan(SiteReadOption::Domain("localhost".to_string())), Some("localhost".to_string()));
    let id = SiteIdBuilderImpl::new().build("1".to_string());
    assert_eq!(site_read_plan(SiteReadOption::SiteId(id)), None);
}

#[test]
fn user_id_of_found_user() {
    let user = User { id: "users:5".to_string(), username: "u".to_string(), password: String::new() };
    assert_eq!(user_id_of(Some(user)).unwrap().value, "users:5");
    assert!(user_id_of(None).is_none());
}

#[test]
fn first_count_is_the_first_row() {
    assert_eq!(first_count(&vec![3, 9]), 3);
}

#[test]
fn records_keep_their_values() {
    assert_eq!(RecordId::new("has_roles:1".to_string()).value(), "has_roles:1");
    assert_eq!(DataError::new("oops".to_string()).message(), "oops");
}

struct NewPage {
    name: String,
    code: Option<String>,
}

impl PageCreateTrait for NewPage {
    fn name_view(&self) -> vstd::seq::Seq<char> {
        panic!("spec only")
    }

    fn code_view(&self) -> Option<vstd::seq::Seq<char>> {
        panic!("spec only")
    }

    fn name(&self) -> String {
        self.name.clone()
    }

    fn code(&self) -> Option<String> {
        self.code.clone()
    }
}

#[test]
fn create_page_query_copies_code_and_name() {
    let q = CreatePageQuery::new(&NewPage { name: "About".to_string(), code: Some("about".to_string()) });
    assert_eq!(q.name, "About");
    assert_eq!(q.code, Some("about".to_string()));
    let q = CreatePageQuery::new(&NewPage { name: "Main".to_string(), code: None });
    assert_eq!(q.code, None);
}
