use blob_gateway::BytesDao;
use blob_gateway::ImageDao;
use blob_gateway::MemBytesDaoImpl;
use blob_gateway::MemImageDaoImpl;

#[test]
fn bytes_dao_test_init() {
    let bytes_dao = MemBytesDaoImpl { state: Vec::new() };
    assert_eq!(bytes_dao.load_bytes("anything"), Ok(None));
}

#[test]
fn bytes_dao_test_insert_and_load_an_image() {
    let mut bytes_dao = MemBytesDaoImpl { state: Vec::new() };
    let image: Vec<u8> = vec![1, 2, 3, 10, 200];
    assert_eq!(bytes_dao.save_bytes("some-id", image.clone()), Ok(()));
    assert_eq!(bytes_dao.load_bytes("some-id"), Ok(Some(image)));
    assert_eq!(bytes_dao.load_bytes("other-id"), Ok(None));
}

#[test]
fn image_dao_test_init() {
    let image_dao = MemImageDaoImpl { state: Vec::new() };
    assert_eq!(image_dao.load_image("anything"), Ok(None));
}

#[test]
fn image_dao_test_insert_and_load_an_image() {
    let mut image_dao = MemImageDaoImpl { state: Vec::new() };
    let image: Vec<u8> = vec![1, 2, 3, 10, 200];
    assert_eq!(image_dao.save_image("some-id", image.clone()), Ok(()));
    assert_eq!(image_dao.load_image("some-id"), Ok(Some(image)));
    assert_eq!(image_dao.load_image("other-id"), Ok(None));
}

#[test]
fn newest_entry_wins() {
    let mut bytes_dao = MemBytesDaoImpl { state: Vec::new() };
    assert_eq!(bytes_dao.save_bytes("k", vec![1]), Ok(()));
    assert_eq!(bytes_dao.save_bytes("k", vec![2]), Ok(()));
    assert_eq!(bytes_dao.load_bytes("k"), Ok(Some(vec![2])));
}

#[test]
fn image_service_round_trip() {
    let mut image_dao = MemImageDaoImpl { state: Vec::new() };
    let image: Vec<u8> = vec![9, 8, 7];
    assert_eq!(
        blob_gateway::save_image(&mut image_dao, "img", image.clone()),
        Ok(())
    );
    assert_eq!(
        blob_gateway::load_image(&image_dao, "img"),
        Ok(Some(image))
    );
    assert_eq!(blob_gateway::load_image(&image_dao, "none"), Ok(None));
}
