use tari_dan::component::{ComponentAction, ComponentAddress, ComponentManager, ComponentRef};
use tari_dan::non_fungible::{Metadata, MintArg, NonFungibleId, NonFungibleResourceBuilder, ResourceType};
use tari_dan::template_crypto::Hash as TemplateHash;

fn addr(b: u8) -> ComponentAddress {
    ComponentAddress::new(TemplateHash::from_array([b; 32]))
}

#[test]
fn component_manager_by_address() {
    let m = ComponentManager::get(addr(4));
    assert_eq!(m.address().0.into_array(), [4u8; 32]);
}

#[test]
fn component_invocations() {
    let m = ComponentManager::get(addr(5));
    let call = m.call_method_arg("transfer".to_string(), vec![vec![1], vec![2, 3]]);
    assert_eq!(call.component_address.0.into_array(), [5u8; 32]);
    assert_eq!(call.method, "transfer");
    assert_eq!(call.args, vec![vec![1], vec![2, 3]]);

    let get = m.get_state_arg();
    assert!(get.action == ComponentAction::Get);
    assert!(get.args.is_empty());
    let ComponentRef::Ref(a) = get.component_ref;
    assert_eq!(a.0.into_array(), [5u8; 32]);

    let set = m.set_state_arg(vec![9, 9]);
    assert!(set.action == ComponentAction::SetState);
    assert_eq!(set.args, vec![vec![9, 9]]);

    let rules = m.set_access_rules_arg(vec![7]);
    assert!(rules.action == ComponentAction::SetAccessRules);
    assert_eq!(rules.args, vec![vec![7]]);
}

#[test]
fn metadata_later_value_wins() {
    let mut md = Metadata::new();
    md.insert("name".to_string(), "a".to_string());
    md.insert("name".to_string(), "b".to_string());
    let last: Vec<(String, String)> = md.entries().to_vec();
    assert_eq!(last.last().unwrap().1, "b");
}

fn token(id: u64, data: u8) -> (NonFungibleId, (Vec<u8>, Vec<u8>)) {
    (NonFungibleId::Uint64(id), (vec![data], vec![]))
}

#[test]
fn builder_without_tokens_builds_resource() {
    let b = NonFungibleResourceBuilder::new("NFT".to_string()).add_metadata("k".to_string(), "v".to_string());
    assert!(!b.has_tokens());
    let arg = b.build();
    assert!(arg.resource_type == ResourceType::NonFungible);
    assert_eq!(arg.token_symbol, "NFT");
    assert!(arg.mint_arg.is_none());
    assert_eq!(arg.metadata.entries().to_vec(), vec![("k".to_string(), "v".to_string())]);
}

#[test]
fn builder_with_tokens_builds_bucket() {
    let b = NonFungibleResourceBuilder::new("NFT".to_string())
        .with_non_fungibles(vec![token(1, 10), token(2, 20)])
        .mint_many_with(vec![token(3, 30)]);
    assert!(b.has_tokens());
    let arg = b.build_bucket();
    match arg.mint_arg {
        Some(MintArg::NonFungible { tokens }) => {
            let ids: Vec<u8> = tokens.iter().map(|t| t.1 .0[0]).collect();
            assert_eq!(ids, vec![10, 20, 30]);
        },
        None => panic!("expected tokens"),
    }
}

#[test]
fn builder_empty_bucket() {
    let arg = NonFungibleResourceBuilder::new("X".to_string()).build_bucket();
    assert!(matches!(arg.mint_arg, Some(MintArg::NonFungible { tokens }) if tokens.is_empty()));
}
