use libzip_safe::archive::Archive;
use libzip_safe::error::Error;
use libzip_safe::error::Zip;
use libzip_safe::source::File;
use libzip_safe::source::Source;

fn boom(zip: Zip) -> Error {
    Error {
        system: None,
        zip: Some(zip),
        message: String::from("boom"),
    }
}

#[test]
fn source_creation_fails_on_null_handle() {
    let r: Result<Source<File>, Error> = Source::try_from_raw(0, boom(Zip::Open));
    let e = r.err().expect("null handle must be an error");
    assert_eq!(e.zip, Some(Zip::Open));
}

#[test]
fn source_release_frees_exactly_once() {
    let r: Result<Source<File>, Error> = Source::try_from_raw(11, boom(Zip::Open));
    let mut s = r.ok().expect("non-null handle must be a source");
    assert_eq!(s.release(), Some(11));
    assert_eq!(s.release(), None);
    assert_eq!(s.release(), None);
}

#[test]
fn transferred_source_frees_nothing() {
    let mut s: Source<File> =
        Source::try_from_raw(11, boom(Zip::Open)).ok().expect("source");
    s.taken();
    assert_eq!(s.release(), None);
}

#[test]
fn handle_mut_hands_out_the_raw_handle() {
    let mut s: Source<File> =
        Source::try_from_raw(23, boom(Zip::Open)).ok().expect("source");
    assert_eq!(s.handle_mut(), 23);
    assert_eq!(s.handle_mut(), 23);
    assert_eq!(s.release(), Some(23));
}

#[test]
fn failed_open_leaves_source_intact() {
    let mut s: Source<File> =
        Source::try_from_raw(11, boom(Zip::Open)).ok().expect("source");
    let r = Archive::open(&mut s, 0, boom(Zip::NotZip));
    let e = r.err().expect("null archive handle must be an error");
    assert_eq!(e.zip, Some(Zip::NotZip));
    assert_eq!(s.release(), Some(11), "the engine took nothing on failure");
}

#[test]
fn successful_open_takes_the_source() {
    let mut s: Source<File> =
        Source::try_from_raw(11, boom(Zip::Open)).ok().expect("source");
    let a = Archive::open(&mut s, 42, boom(Zip::NotZip)).ok().expect("archive");
    assert_eq!(s.release(), None, "ownership moved to the engine");
    assert_eq!(a.finalize_target(), Some(42));
}

#[test]
fn failed_add_leaves_source_intact() {
    let mut s: Source<File> =
        Source::try_from_raw(11, boom(Zip::Open)).ok().expect("source");
    let mut a = Archive::open(&mut s, 42, boom(Zip::NotZip)).ok().expect("archive");
    let mut entry: Source<File> =
        Source::try_from_raw(77, boom(Zip::Open)).ok().expect("source");
    let r = a.add(&mut entry, -1, boom(Zip::Exists));
    let e = r.err().expect("sentinel index must be an error");
    assert_eq!(e.zip, Some(Zip::Exists));
    assert_eq!(entry.release(), Some(77), "a failed add transfers nothing");
}

#[test]
fn successful_add_takes_the_source_and_returns_the_index() {
    let mut s: Source<File> =
        Source::try_from_raw(11, boom(Zip::Open)).ok().expect("source");
    let mut a = Archive::open(&mut s, 42, boom(Zip::NotZip)).ok().expect("archive");
    let mut entry: Source<File> =
        Source::try_from_raw(77, boom(Zip::Open)).ok().expect("source");
    let index = a.add(&mut entry, 3, boom(Zip::Exists)).ok().expect("index");
    assert_eq!(index, 3);
    assert_eq!(entry.release(), None);
}

#[test]
fn replace_has_the_same_transfer_semantics_as_add() {
    let mut s: Source<File> =
        Source::try_from_raw(11, boom(Zip::Open)).ok().expect("source");
    let mut a = Archive::open(&mut s, 42, boom(Zip::NotZip)).ok().expect("archive");
    let mut good: Source<File> =
        Source::try_from_raw(88, boom(Zip::Open)).ok().expect("source");
    a.replace(&mut good, 0, boom(Zip::Deleted)).ok().expect("replace");
    assert_eq!(good.release(), None);
    let mut bad: Source<File> =
        Source::try_from_raw(89, boom(Zip::Open)).ok().expect("source");
    let e = a.replace(&mut bad, -1, boom(Zip::Deleted)).err().expect("error");
    assert_eq!(e.zip, Some(Zip::Deleted));
    assert_eq!(bad.release(), Some(89));
}

#[test]
fn encryption_calls_translate_the_sentinel() {
    let mut s: Source<File> =
        Source::try_from_raw(11, boom(Zip::Open)).ok().expect("source");
    let mut a = Archive::open(&mut s, 42, boom(Zip::NotZip)).ok().expect("archive");
    a.set_encryption_on_file(0, boom(Zip::EncryptionNotSupported))
        .ok()
        .expect("success status");
    let e = a
        .set_encryption_on_file(-1, boom(Zip::EncryptionNotSupported))
        .err()
        .expect("sentinel status");
    assert_eq!(e.zip, Some(Zip::EncryptionNotSupported));
    a.set_encryption_password(0, boom(Zip::NoPassword)).ok().expect("success");
    let e = a.set_encryption_password(-1, boom(Zip::NoPassword)).err().expect("error");
    assert_eq!(e.zip, Some(Zip::NoPassword));
}

#[test]
fn entry_stream_translates_read_and_seek() {
    let mut s: Source<File> =
        Source::try_from_raw(11, boom(Zip::Open)).ok().expect("source");
    let mut a = Archive::open(&mut s, 42, boom(Zip::NotZip)).ok().expect("archive");
    let mut f = a.open_file(55, boom(Zip::NoSuchFile)).ok().expect("entry");
    assert_eq!(f.close_target(), Some(55));
    assert_eq!(f.read(1024, 26, boom(Zip::Read)).ok(), Some(26));
    assert_eq!(f.read(1024, 0, boom(Zip::Read)).ok(), Some(0), "end of stream");
    let e = f.read(1024, -1, boom(Zip::Read)).err().expect("sentinel");
    assert_eq!(e.zip, Some(Zip::Read));
    assert_eq!(f.seek(0, 40, boom(Zip::Seek)).ok(), Some(40));
    let e = f.seek(-1, 0, boom(Zip::Seek)).err().expect("sentinel");
    assert_eq!(e.zip, Some(Zip::Seek));
    f.close(0, boom(Zip::Close)).ok().expect("close");
    assert_eq!(f.close_target(), None, "closing again owes the engine nothing");
}

#[test]
fn missing_entry_is_an_error() {
    let mut s: Source<File> =
        Source::try_from_raw(11, boom(Zip::Open)).ok().expect("source");
    let mut a = Archive::open(&mut s, 42, boom(Zip::NotZip)).ok().expect("archive");
    let e = a.open_file(0, boom(Zip::NoSuchFile)).err().expect("null entry handle");
    assert_eq!(e.zip, Some(Zip::NoSuchFile));
}

#[test]
fn failed_entry_close_still_consumes_the_entry() {
    let mut s: Source<File> =
        Source::try_from_raw(11, boom(Zip::Open)).ok().expect("source");
    let mut a = Archive::open(&mut s, 42, boom(Zip::NotZip)).ok().expect("archive");
    let mut f = a.open_file(55, boom(Zip::NoSuchFile)).ok().expect("entry");
    let e = f.close(-1, boom(Zip::Close)).err().expect("close error");
    assert_eq!(e.zip, Some(Zip::Close));
    assert_eq!(f.close_target(), None, "no retry path for an entry close");
}

#[test]
fn entry_release_is_best_effort_and_at_most_once() {
    let mut s: Source<File> =
        Source::try_from_raw(11, boom(Zip::Open)).ok().expect("source");
    let mut a = Archive::open(&mut s, 42, boom(Zip::NotZip)).ok().expect("archive");
    let mut f = a.open_file(55, boom(Zip::NoSuchFile)).ok().expect("entry");
    assert_eq!(f.release(), Some(55));
    assert_eq!(f.release(), None);
}

#[test]
fn failed_close_leaves_archive_open_for_retry_or_discard() {
    let mut s: Source<File> =
        Source::try_from_raw(11, boom(Zip::Open)).ok().expect("source");
    let mut a = Archive::open(&mut s, 42, boom(Zip::NotZip)).ok().expect("archive");
    let e = a.close(-1, boom(Zip::Close)).err().expect("close error");
    assert_eq!(e.zip, Some(Zip::Close));
    assert_eq!(a.finalize_target(), Some(42), "the archive is intact after a failed close");
    a.close(0, boom(Zip::Close)).ok().expect("retried close succeeds");
    assert_eq!(a.finalize_target(), None, "a second finalization is a no-op");
}

#[test]
fn discard_always_finalizes() {
    let mut s: Source<File> =
        Source::try_from_raw(11, boom(Zip::Open)).ok().expect("source");
    let mut a = Archive::open(&mut s, 42, boom(Zip::NotZip)).ok().expect("archive");
    let e = a.close(-1, boom(Zip::Close)).err().expect("close error");
    assert_eq!(e.zip, Some(Zip::Close));
    a.discard();
    assert_eq!(a.finalize_target(), None, "discard after a failed close finalizes");
}
