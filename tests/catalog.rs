use facial_anim::catalog::{
    decode_c_text, decode_channel_name, node_name, CatalogBuilder, CatalogQuery, SGContext,
};
use facial_anim::error::{Error, SG_Error};
use facial_anim::format::SG_OutputTraits;

fn buf(text: &str) -> Vec<u8> {
    let mut b = vec![0u8; 1024];
    b[..text.len()].copy_from_slice(text.as_bytes());
    b
}

#[test]
fn zero_nodes_refused() {
    let r = CatalogBuilder::start(SG_OutputTraits { anim_node_count: 0 });
    assert_eq!(r.err(), Some(Error(SG_Error::SG_ERROR_INVALID_ANIMATION_NODE)));
}

#[test]
fn builds_catalog_query_by_query() {
    let mut b = CatalogBuilder::start(SG_OutputTraits { anim_node_count: 2 }).unwrap();
    assert_eq!(b.next_query(), CatalogQuery::NodeInfo(0));
    b.add_node(&buf("blendBoard"), 2);
    assert_eq!(b.next_query(), CatalogQuery::ChannelName(0, 0));
    b.add_channel_name(&buf("jawOpen")).unwrap();
    assert_eq!(b.next_query(), CatalogQuery::ChannelName(0, 1));
    b.add_channel_name(&buf("browUp")).unwrap();
    assert_eq!(b.next_query(), CatalogQuery::NodeInfo(1));
    b.add_node(&buf("eyes"), 0);
    assert_eq!(b.next_query(), CatalogQuery::Done);
    let nodes = b.finish();
    assert_eq!(nodes.len(), 2);
    assert_eq!(nodes[0].name, "blendBoard");
    assert_eq!(nodes[0].channel_names, vec!["jawOpen".to_string(), "browUp".to_string()]);
    assert_eq!(nodes[1].name, "eyes");
    assert!(nodes[1].channel_names.is_empty());
}

#[test]
fn undecodable_channel_name_refused() {
    let mut b = CatalogBuilder::start(SG_OutputTraits { anim_node_count: 1 }).unwrap();
    b.add_node(&buf("n"), 1);
    let no_terminator = vec![b'a'; 1024];
    let e = Error(SG_Error::SG_ERROR_INVALID_ANIMATION_CHANNEL);
    assert_eq!(b.add_channel_name(&no_terminator), Err(e));
    assert_eq!(b.add_channel_name(&[0xff, 0xfe, 0]), Err(e));
    assert_eq!(b.next_query(), CatalogQuery::ChannelName(0, 0));
}

#[test]
fn c_text_stops_at_first_zero() {
    assert_eq!(decode_c_text(&[b'h', b'i', 0, b'x', 0]), Some("hi".to_string()));
    assert_eq!(decode_c_text(&[0]), Some(String::new()));
    assert_eq!(decode_c_text(&[]), None);
    assert_eq!(decode_c_text("é\0".as_bytes()), Some("é".to_string()));
    assert_eq!(decode_channel_name(&buf("mouthSmile")), Ok("mouthSmile".to_string()));
}

#[test]
fn node_name_falls_back_to_unknown() {
    assert_eq!(node_name(&[b'a', b'b']), "Unknown");
    assert_eq!(node_name(&buf("head")), "head");
}

#[test]
fn context_needs_successful_initialization() {
    let c = SGContext::new(vec![1, 2], vec![3], SG_Error::SG_ERROR_OK).unwrap();
    assert_eq!(c.session_payloads(), (vec![1, 2], vec![3]));
    let e = SGContext::new(vec![], vec![], SG_Error::SG_ERROR_ENGINE(3));
    assert_eq!(e.err(), Some(Error(SG_Error::SG_ERROR_ENGINE(3))));
}
