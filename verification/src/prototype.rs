//! Document prototypes: resumes, cover letters and portfolio projects that
//! are produced by copying a registered template and customising the copy.

use vstd::prelude::*;

use crate::util::dec_rep;
use crate::util::fmt_u32;
use crate::util::fmt_usize;
use crate::util::opt_view;
use crate::util::str_eq;

verus! {

/// The view of a list of strings.
pub open spec fn strings_view(v: Seq<String>) -> Seq<Seq<char>> {
    v.map_values(|s: String| s@)
}

/// A copy of a string list, character for character.
fn clone_strings(v: &Vec<String>) -> (r: Vec<String>)
    ensures
        strings_view(r@) == strings_view(v@),
{
    let mut out: Vec<String> = Vec::new();
    let mut i: usize = 0;
    while i < v.len()
        invariant
            i <= v@.len(),
            out@.len() == i,
            forall|k: int| 0 <= k < i ==> (#[trigger] out@[k])@ == v@[k]@,
        decreases v@.len() - i,
    {
        out.push(v[i].clone());
        i += 1;
    }
    proof {
        assert(strings_view(out@) =~= strings_view(v@));
    }
    out
}

/// A record of a person's skills and history.
#[derive(Debug, Clone)]
pub struct Resume {
    pub name: String,
    pub email: String,
    pub phone: String,
    pub experience_years: u32,
    pub skills: Vec<String>,
    pub education: Vec<String>,
    pub previous_jobs: Vec<String>,
}

/// The spec-level image of a resume.
#[verifier::ext_equal]
pub struct ResumeImage {
    pub name: Seq<char>,
    pub email: Seq<char>,
    pub phone: Seq<char>,
    pub experience_years: u32,
    pub skills: Seq<Seq<char>>,
    pub education: Seq<Seq<char>>,
    pub previous_jobs: Seq<Seq<char>>,
}

impl View for Resume {
    type V = ResumeImage;

    open spec fn view(&self) -> ResumeImage {
        ResumeImage {
            name: self.name@,
            email: self.email@,
            phone: self.phone@,
            experience_years: self.experience_years,
            skills: strings_view(self.skills@),
            education: strings_view(self.education@),
            previous_jobs: strings_view(self.previous_jobs@),
        }
    }
}

/// An empty resume image under redacted contact details.
pub open spec fn redacted_image() -> ResumeImage {
    ResumeImage {
        name: "[Redacted]"@,
        email: "[Redacted]"@,
        phone: "[Redacted]"@,
        experience_years: 0,
        skills: Seq::empty(),
        education: Seq::empty(),
        previous_jobs: Seq::empty(),
    }
}

/// A resume image filtered by the three inclusion switches.
pub open spec fn config_filtered(
    img: ResumeImage,
    personal: bool,
    contact: bool,
    experience: bool,
) -> ResumeImage {
    let base = if personal {
        img
    } else {
        redacted_image()
    };
    let with_contact = if contact {
        base
    } else {
        ResumeImage { email: "[Redacted]"@, phone: "[Redacted]"@, ..base }
    };
    if experience {
        with_contact
    } else {
        ResumeImage { previous_jobs: Seq::empty(), experience_years: 0, ..with_contact }
    }
}

/// The two skills a known role contributes; none for an unknown or absent
/// role.
pub open spec fn role_skills(role: Option<Seq<char>>) -> Seq<Seq<char>> {
    match role {
        Some(r) => {
            if r == "developer"@ {
                seq!["Programming"@, "Software Development"@]
            } else if r == "manager"@ {
                seq!["Leadership"@, "Project Management"@]
            } else if r == "designer"@ {
                seq!["UI/UX Design"@, "Creative Design"@]
            } else {
                Seq::empty()
            }
        },
        None => Seq::empty(),
    }
}

/// A sequence with later repetitions of earlier entries dropped.
pub open spec fn dedup_first(s: Seq<Seq<char>>) -> Seq<Seq<char>>
    decreases s.len(),
{
    if s.len() == 0 {
        Seq::empty()
    } else {
        let front = dedup_first(s.drop_last());
        if front.contains(s.last()) {
            front
        } else {
            front + seq![s.last()]
        }
    }
}

fn push_unique(out: &mut Vec<String>, item: &String)
    ensures
        strings_view(final(out)@) == if strings_view(old(out)@).contains(item@) {
            strings_view(old(out)@)
        } else {
            strings_view(old(out)@) + seq![item@]
        },
{
    let ghost prior = strings_view(out@);
    let mut i: usize = 0;
    while i < out.len()
        invariant
            i <= out@.len(),
            prior == strings_view(out@),
            prior.len() == out@.len(),
            forall|k: int| 0 <= k < i ==> (#[trigger] prior[k]) != item@,
        decreases out@.len() - i,
    {
        proof {
            assert(prior[i as int] == out@[i as int]@);
        }
        if str_eq(out[i].as_str(), item.as_str()) {
            proof {
                assert(prior.contains(item@));
            }
            return ;
        }
        i += 1;
    }
    proof {
        if prior.contains(item@) {
            let w = choose|w: int| 0 <= w < prior.len() && prior[w] == item@;
            assert(prior[w] != item@);
        }
    }
    out.push(item.clone());
    proof {
        assert(strings_view(out@) =~= prior + seq![item@]);
    }
}

impl Resume {
    /// A fresh resume with nothing but contact details.
    pub fn new(name: &str, email: &str, phone: &str) -> (r: Resume)
        ensures
            r@ == (ResumeImage {
                name: name@,
                email: email@,
                phone: phone@,
                experience_years: 0,
                skills: Seq::<Seq<char>>::empty(),
                education: Seq::<Seq<char>>::empty(),
                previous_jobs: Seq::<Seq<char>>::empty(),
            }),
    {
        let r = Resume {
            name: name.to_owned(),
            email: email.to_owned(),
            phone: phone.to_owned(),
            experience_years: 0,
            skills: Vec::new(),
            education: Vec::new(),
            previous_jobs: Vec::new(),
        };
        proof {
            assert(r@ =~= (ResumeImage {
                name: name@,
                email: email@,
                phone: phone@,
                experience_years: 0,
                skills: Seq::<Seq<char>>::empty(),
                education: Seq::<Seq<char>>::empty(),
                previous_jobs: Seq::<Seq<char>>::empty(),
            }));
        }
        r
    }

    pub fn add_skill(&mut self, skill: &str)
        ensures
            final(self)@ == (ResumeImage { skills: old(self)@.skills.push(skill@), ..old(self)@ }),
    {
        self.skills.push(skill.to_owned());
        proof {
            assert(self@ =~= (ResumeImage { skills: old(self)@.skills.push(skill@), ..old(self)@ }));
        }
    }

    pub fn add_education(&mut self, education: &str)
        ensures
            final(self)@ == (ResumeImage {
                education: old(self)@.education.push(education@),
                ..old(self)@
            }),
    {
        self.education.push(education.to_owned());
        proof {
            assert(self@ =~= (ResumeImage {
                education: old(self)@.education.push(education@),
                ..old(self)@
            }));
        }
    }

    pub fn add_job(&mut self, job: &str)
        ensures
            final(self)@ == (ResumeImage {
                previous_jobs: old(self)@.previous_jobs.push(job@),
                ..old(self)@
            }),
    {
        self.previous_jobs.push(job.to_owned());
        proof {
            assert(self@ =~= (ResumeImage {
                previous_jobs: old(self)@.previous_jobs.push(job@),
                ..old(self)@
            }));
        }
    }

    pub fn set_experience(&mut self, years: u32)
        ensures
            final(self)@ == (ResumeImage { experience_years: years, ..old(self)@ }),
    {
        self.experience_years = years;
        proof {
            assert(self@ =~= (ResumeImage { experience_years: years, ..old(self)@ }));
        }
    }

    /// A deep copy with the same image.
    pub fn copy_of(&self) -> (r: Resume)
        ensures
            r@ == self@,
    {
        let r = Resume {
            name: self.name.clone(),
            email: self.email.clone(),
            phone: self.phone.clone(),
            experience_years: self.experience_years,
            skills: clone_strings(&self.skills),
            education: clone_strings(&self.education),
            previous_jobs: clone_strings(&self.previous_jobs),
        };
        proof {
            assert(r@ =~= self@);
        }
        r
    }

    /// A copy tailored to a position: the extra skills are appended and
    /// repeated skills are dropped, keeping first occurrences in order.
    pub fn clone_for_position(&self, position_skills: &Vec<String>) -> (r: Resume)
        ensures
            r@ == (ResumeImage {
                skills: dedup_first(self@.skills + strings_view(position_skills@)),
                ..self@
            }),
    {
        let ghost all = self@.skills + strings_view(position_skills@);
        let mut skills: Vec<String> = Vec::new();
        proof {
            assert(all.take(0) =~= Seq::<Seq<char>>::empty());
            assert(strings_view(skills@) =~= Seq::<Seq<char>>::empty());
        }
        let mut i: usize = 0;
        while i < self.skills.len()
            invariant
                i <= self.skills@.len(),
                all == self@.skills + strings_view(position_skills@),
                all.len() == self.skills@.len() + position_skills@.len(),
                strings_view(skills@) == dedup_first(all.take(i as int)),
            decreases self.skills@.len() - i,
        {
            proof {
                assert(all[i as int] == self.skills@[i as int]@);
                assert(all.take(i + 1).drop_last() =~= all.take(i as int));
                assert(all.take(i + 1).last() == all[i as int]);
            }
            push_unique(&mut skills, &self.skills[i]);
            i += 1;
        }
        let base = self.skills.len();
        let mut j: usize = 0;
        while j < position_skills.len()
            invariant
                j <= position_skills@.len(),
                base == self.skills@.len(),
                all == self@.skills + strings_view(position_skills@),
                all.len() == base + position_skills@.len(),
                strings_view(skills@) == dedup_first(all.take(base + j)),
            decreases position_skills@.len() - j,
        {
            proof {
                assert(all[base + j] == position_skills@[j as int]@);
                assert(all.take(base + j + 1).drop_last() =~= all.take(base + j));
                assert(all.take(base + j + 1).last() == all[base + j]);
            }
            push_unique(&mut skills, &position_skills[j]);
            j += 1;
        }
        proof {
            assert(all.take(all.len() as int) =~= all);
        }
        let r = Resume {
            name: self.name.clone(),
            email: self.email.clone(),
            phone: self.phone.clone(),
            experience_years: self.experience_years,
            skills,
            education: clone_strings(&self.education),
            previous_jobs: clone_strings(&self.previous_jobs),
        };
        proof {
            assert(r@ =~= (ResumeImage { skills: dedup_first(all), ..self@ }));
        }
        r
    }

    /// A copy filtered by the configuration (see `config_filtered`), with a
    /// known role's skills appended (see `role_skills`).
    pub fn clone_with_config(&self, config: &CloneConfiguration) -> (r: Resume)
        ensures
            ({
                let filtered = config_filtered(
                    self@,
                    config.include_personal_info,
                    config.include_contact_info,
                    config.include_experience,
                );
                r@ == (ResumeImage {
                    skills: filtered.skills + role_skills(opt_view(config.customize_for_role)),
                    ..filtered
                })
            }),
    {
        let ghost filtered = config_filtered(
            self@,
            config.include_personal_info,
            config.include_contact_info,
            config.include_experience,
        );
        let mut cloned = if config.include_personal_info {
            self.copy_of()
        } else {
            Resume::new("[Redacted]", "[Redacted]", "[Redacted]")
        };
        if !config.include_contact_info {
            cloned.email = "[Redacted]".to_owned();
            cloned.phone = "[Redacted]".to_owned();
        }
        if !config.include_experience {
            cloned.previous_jobs.clear();
            cloned.experience_years = 0;
        }
        proof {
            assert(strings_view(Seq::<String>::empty()) =~= Seq::<Seq<char>>::empty());
            assert(cloned@ =~= filtered);
        }
        let ghost before_role = cloned@;
        match &config.customize_for_role {
            Some(role) => {
                if str_eq(role.as_str(), "developer") {
                    cloned.add_skill("Programming");
                    cloned.add_skill("Software Development");
                    proof {
                        assert(cloned@ =~= (ResumeImage {
                            skills: before_role.skills + role_skills(
                                opt_view(config.customize_for_role),
                            ),
                            ..before_role
                        }));
                    }
                } else if str_eq(role.as_str(), "manager") {
                    cloned.add_skill("Leadership");
                    cloned.add_skill("Project Management");
                    proof {
                        assert(cloned@ =~= (ResumeImage {
                            skills: before_role.skills + role_skills(
                                opt_view(config.customize_for_role),
                            ),
                            ..before_role
                        }));
                    }
                } else if str_eq(role.as_str(), "designer") {
                    cloned.add_skill("UI/UX Design");
                    cloned.add_skill("Creative Design");
                    proof {
                        assert(cloned@ =~= (ResumeImage {
                            skills: before_role.skills + role_skills(
                                opt_view(config.customize_for_role),
                            ),
                            ..before_role
                        }));
                    }
                } else {
                    proof {
                        assert(cloned@ =~= (ResumeImage {
                            skills: before_role.skills + role_skills(
                                opt_view(config.customize_for_role),
                            ),
                            ..before_role
                        }));
                    }
                }
            },
            None => {
                proof {
                    assert(cloned@ =~= (ResumeImage {
                        skills: before_role.skills + role_skills(
                            opt_view(config.customize_for_role),
                        ),
                        ..before_role
                    }));
                }
            },
        }
        cloned
    }
}

/// A cover letter addressed to a company about one position.
#[derive(Debug, Clone)]
pub struct CoverLetter {
    pub recipient: String,
    pub company: String,
    pub position: String,
    pub content: String,
    pub signature: String,
}

/// The opening paragraph a fresh cover letter carries.
pub open spec fn letter_content(
    recipient: Seq<char>,
    company: Seq<char>,
    position: Seq<char>,
) -> Seq<char> {
    "Dear "@ + recipient + ",\n\nI am writing to express my interest in the "@ + position
        + " position at "@ + company + "."@
}

impl CoverLetter {
    /// A fresh letter with the standard opening and signature.
    pub fn new(recipient: &str, company: &str, position: &str) -> (r: CoverLetter)
        ensures
            r.recipient@ == recipient@,
            r.company@ == company@,
            r.position@ == position@,
            r.content@ == letter_content(recipient@, company@, position@),
            r.signature@ == "Sincerely,\n[Your Name]"@,
    {
        let content = "Dear ".to_owned().concat(recipient).concat(
            ",\n\nI am writing to express my interest in the ",
        ).concat(position).concat(" position at ").concat(company).concat(".");
        proof {
            assert(content@ =~= letter_content(recipient@, company@, position@));
        }
        CoverLetter {
            recipient: recipient.to_owned(),
            company: company.to_owned(),
            position: position.to_owned(),
            content,
            signature: "Sincerely,\n[Your Name]".to_owned(),
        }
    }

    pub fn customize_content(&mut self, custom_content: &str)
        ensures
            final(self).content@ == custom_content@,
            final(self).recipient == old(self).recipient,
            final(self).company == old(self).company,
            final(self).position == old(self).position,
            final(self).signature == old(self).signature,
    {
        self.content = custom_content.to_owned();
    }

    pub fn set_signature(&mut self, signature: &str)
        ensures
            final(self).signature@ == signature@,
            final(self).recipient == old(self).recipient,
            final(self).company == old(self).company,
            final(self).position == old(self).position,
            final(self).content == old(self).content,
    {
        self.signature = signature.to_owned();
    }

    /// A deep copy with the same fields.
    pub fn copy_of(&self) -> (r: CoverLetter)
        ensures
            r.recipient@ == self.recipient@,
            r.company@ == self.company@,
            r.position@ == self.position@,
            r.content@ == self.content@,
            r.signature@ == self.signature@,
    {
        CoverLetter {
            recipient: self.recipient.clone(),
            company: self.company.clone(),
            position: self.position.clone(),
            content: self.content.clone(),
            signature: self.signature.clone(),
        }
    }
}

/// A portfolio entry for one project.
#[derive(Debug, Clone)]
pub struct PortfolioProject {
    pub name: String,
    pub description: String,
    pub technologies: Vec<String>,
    pub repository_url: Option<String>,
    pub demo_url: Option<String>,
    pub screenshots: Vec<String>,
    pub completion_date: String,
}

impl PortfolioProject {
    /// A fresh project entry dated 2023.
    pub fn new(name: &str, description: &str) -> (r: PortfolioProject)
        ensures
            r.name@ == name@,
            r.description@ == description@,
            r.technologies@.len() == 0,
            r.repository_url is None,
            r.demo_url is None,
            r.screenshots@.len() == 0,
            r.completion_date@ == "2023"@,
    {
        PortfolioProject {
            name: name.to_owned(),
            description: description.to_owned(),
            technologies: Vec::new(),
            repository_url: None,
            demo_url: None,
            screenshots: Vec::new(),
            completion_date: "2023".to_owned(),
        }
    }

    /// A plain copy; nothing is shared, nothing changes.
    pub fn shallow_clone(&self) -> (r: PortfolioProject)
        ensures
            r.name@ == self.name@,
            r.description@ == self.description@,
            strings_view(r.technologies@) == strings_view(self.technologies@),
            opt_view(r.repository_url) == opt_view(self.repository_url),
            opt_view(r.demo_url) == opt_view(self.demo_url),
            strings_view(r.screenshots@) == strings_view(self.screenshots@),
            r.completion_date@ == self.completion_date@,
    {
        self.copy_of()
    }

    /// A copy marked as such in its completion date.
    pub fn deep_clone(&self) -> (r: PortfolioProject)
        ensures
            r.name@ == self.name@,
            r.description@ == self.description@,
            strings_view(r.technologies@) == strings_view(self.technologies@),
            opt_view(r.repository_url) == opt_view(self.repository_url),
            opt_view(r.demo_url) == opt_view(self.demo_url),
            strings_view(r.screenshots@) == strings_view(self.screenshots@),
            r.completion_date@ == "2023 (Cloned)"@,
    {
        let mut cloned = self.copy_of();
        cloned.completion_date = "2023 (Cloned)".to_owned();
        cloned
    }

    fn copy_of(&self) -> (r: PortfolioProject)
        ensures
            r.name@ == self.name@,
            r.description@ == self.description@,
            strings_view(r.technologies@) == strings_view(self.technologies@),
            opt_view(r.repository_url) == opt_view(self.repository_url),
            opt_view(r.demo_url) == opt_view(self.demo_url),
            strings_view(r.screenshots@) == strings_view(self.screenshots@),
            r.completion_date@ == self.completion_date@,
    {
        PortfolioProject {
            name: self.name.clone(),
            description: self.description.clone(),
            technologies: clone_strings(&self.technologies),
            repository_url: match &self.repository_url {
                Some(u) => Some(u.clone()),
                None => None,
            },
            demo_url: match &self.demo_url {
                Some(u) => Some(u.clone()),
                None => None,
            },
            screenshots: clone_strings(&self.screenshots),
            completion_date: self.completion_date.clone(),
        }
    }
}

/// Switches for `clone_with_config`.
#[derive(Debug, Clone)]
pub struct CloneConfiguration {
    pub include_personal_info: bool,
    pub include_contact_info: bool,
    pub include_experience: bool,
    pub customize_for_role: Option<String>,
}

impl Default for CloneConfiguration {
    /// Everything included, no role customisation.
    fn default() -> (r: CloneConfiguration)
        ensures
            r.include_personal_info,
            r.include_contact_info,
            r.include_experience,
            r.customize_for_role is None,
    {
        CloneConfiguration {
            include_personal_info: true,
            include_contact_info: true,
            include_experience: true,
            customize_for_role: None,
        }
    }
}

/// Any of the three document kinds.
pub enum DocumentKind {
    Resume(Resume),
    CoverLetter(CoverLetter),
    Project(PortfolioProject),
}

/// The one-line description of a document.
pub open spec fn document_info(d: DocumentKind) -> Seq<char> {
    match d {
        DocumentKind::Resume(r) => "Resume for "@ + r.name@ + " - "@ + dec_rep(
            r.experience_years as nat,
        ) + " years experience, "@ + dec_rep(r.skills@.len() as nat) + " skills"@,
        DocumentKind::CoverLetter(c) => "Cover Letter for "@ + c.position@ + " position at "@
            + c.company@,
        DocumentKind::Project(p) => "Project: "@ + p.name@ + " ("@ + dec_rep(
            p.technologies@.len() as nat,
        ) + " technologies)"@,
    }
}

/// Whether two documents are copies of one another: same kind, same visible
/// text.
pub open spec fn same_document(a: DocumentKind, b: DocumentKind) -> bool {
    match (a, b) {
        (DocumentKind::Resume(x), DocumentKind::Resume(y)) => x@ == y@,
        (DocumentKind::CoverLetter(x), DocumentKind::CoverLetter(y)) => x.recipient@
            == y.recipient@ && x.company@ == y.company@ && x.position@ == y.position@ && x.content@
            == y.content@ && x.signature@ == y.signature@,
        (DocumentKind::Project(x), DocumentKind::Project(y)) => x.name@ == y.name@
            && x.description@ == y.description@ && strings_view(x.technologies@) == strings_view(
            y.technologies@,
        ) && opt_view(x.repository_url) == opt_view(y.repository_url) && opt_view(x.demo_url)
            == opt_view(y.demo_url) && strings_view(x.screenshots@) == strings_view(y.screenshots@)
            && x.completion_date@ == y.completion_date@,
        _ => false,
    }
}

/// What every document prototype does: copy itself, and describe itself.
pub trait Prototype {
    /// This object, as a document.
    spec fn as_document(&self) -> DocumentKind;

    fn clone_object(&self) -> (r: DocumentKind)
        ensures
            same_document(r, self.as_document()),
    ;

    fn get_info(&self) -> (r: String)
        ensures
            r@ == document_info(self.as_document()),
    ;
}

impl Prototype for Resume {
    open spec fn as_document(&self) -> DocumentKind {
        DocumentKind::Resume(*self)
    }

    fn clone_object(&self) -> (r: DocumentKind) {
        DocumentKind::Resume(self.copy_of())
    }

    fn get_info(&self) -> (r: String) {
        let r = "Resume for ".to_owned().concat(self.name.as_str()).concat(" - ").concat(
            fmt_u32(self.experience_years).as_str(),
        ).concat(" years experience, ").concat(fmt_usize(self.skills.len()).as_str()).concat(
            " skills",
        );
        proof {
            assert(r@ =~= document_info(self.as_document()));
        }
        r
    }
}

impl Prototype for CoverLetter {
    open spec fn as_document(&self) -> DocumentKind {
        DocumentKind::CoverLetter(*self)
    }

    fn clone_object(&self) -> (r: DocumentKind) {
        DocumentKind::CoverLetter(self.copy_of())
    }

    fn get_info(&self) -> (r: String) {
        let r = "Cover Letter for ".to_owned().concat(self.position.as_str()).concat(
            " position at ",
        ).concat(self.company.as_str());
        proof {
            assert(r@ =~= document_info(self.as_document()));
        }
        r
    }
}

impl Prototype for PortfolioProject {
    open spec fn as_document(&self) -> DocumentKind {
        DocumentKind::Project(*self)
    }

    fn clone_object(&self) -> (r: DocumentKind) {
        DocumentKind::Project(self.copy_of())
    }

    fn get_info(&self) -> (r: String) {
        let r = "Project: ".to_owned().concat(self.name.as_str()).concat(" (").concat(
            fmt_usize(self.technologies.len()).as_str(),
        ).concat(" technologies)");
        proof {
            assert(r@ =~= document_info(self.as_document()));
        }
        r
    }
}

impl Prototype for DocumentKind {
    open spec fn as_document(&self) -> DocumentKind {
        *self
    }

    fn clone_object(&self) -> (r: DocumentKind) {
        match self {
            DocumentKind::Resume(d) => {
                let out = d.clone_object();
                proof {
                    assert(same_document(out, *self));
                }
                out
            },
            DocumentKind::CoverLetter(d) => {
                let out = d.clone_object();
                proof {
                    assert(same_document(out, *self));
                }
                out
            },
            DocumentKind::Project(d) => {
                let out = d.clone_object();
                proof {
                    assert(same_document(out, *self));
                }
                out
            },
        }
    }

    fn get_info(&self) -> (r: String) {
        match self {
            DocumentKind::Resume(d) => d.get_info(),
            DocumentKind::CoverLetter(d) => d.get_info(),
            DocumentKind::Project(d) => d.get_info(),
        }
    }
}

/// The registry's entries, keyed by name; a lookup finds the first entry.
pub open spec fn registry_keys(entries: Seq<(String, DocumentKind)>) -> Seq<Seq<char>> {
    entries.map_values(|p: (String, DocumentKind)| p.0@)
}

/// The index of the first entry under a key, or -1.
pub open spec fn registry_index(entries: Seq<(String, DocumentKind)>, key: Seq<char>) -> int
    decreases entries.len(),
{
    if entries.len() == 0 {
        -1
    } else if entries[0].0@ == key {
        0
    } else {
        let rest = registry_index(entries.subrange(1, entries.len() as int), key);
        if rest == -1 {
            -1
        } else {
            rest + 1
        }
    }
}

pub proof fn lemma_registry_index(entries: Seq<(String, DocumentKind)>, key: Seq<char>)
    ensures
        registry_index(entries, key) == -1 ==> forall|k: int|
            0 <= k < entries.len() ==> entries[k].0@ != key,
        registry_index(entries, key) != -1 ==> {
            let j = registry_index(entries, key);
            0 <= j < entries.len() && entries[j].0@ == key && forall|k: int|
                0 <= k < j ==> entries[k].0@ != key
        },
    decreases entries.len(),
{
    if entries.len() > 0 && entries[0].0@ != key {
        let rest = entries.subrange(1, entries.len() as int);
        lemma_registry_index(rest, key);
        assert(forall|k: int| 1 <= k < entries.len() ==> #[trigger] entries[k] == rest[k - 1]);
        if registry_index(rest, key) == -1 {
            assert(forall|k: int| 0 <= k < entries.len() ==> (#[trigger] entries[k]).0@ != key);
        } else {
            let j = registry_index(rest, key);
            assert(entries[j + 1].0@ == key);
            assert(forall|k: int| 0 <= k < j + 1 ==> (#[trigger] entries[k]).0@ != key);
        }
    }
}

/// Holds document templates under names and hands out copies.
pub struct DocumentRegistry {
    pub prototypes: Vec<(String, DocumentKind)>,
}

impl DocumentRegistry {
    /// An empty registry.
    pub fn new() -> (r: DocumentRegistry)
        ensures
            r.prototypes@.len() == 0,
    {
        DocumentRegistry { prototypes: Vec::new() }
    }

    fn find_entry(&self, key: &str) -> (r: Option<usize>)
        ensures
            match r {
                Some(i) => i < self.prototypes@.len() && registry_index(self.prototypes@, key@)
                    == i as int,
                None => registry_index(self.prototypes@, key@) == -1,
            },
    {
        let mut i: usize = 0;
        while i < self.prototypes.len()
            invariant
                i <= self.prototypes@.len(),
                forall|k: int| 0 <= k < i ==> (#[trigger] self.prototypes@[k]).0@ != key@,
            decreases self.prototypes@.len() - i,
        {
            if str_eq(self.prototypes[i].0.as_str(), key) {
                proof {
                    lemma_registry_index(self.prototypes@, key@);
                    let j = registry_index(self.prototypes@, key@);
                    if j == -1 || j < i || j > i {
                        assert(false);
                    }
                }
                return Some(i);
            }
            i += 1;
        }
        proof {
            lemma_registry_index(self.prototypes@, key@);
            if registry_index(self.prototypes@, key@) != -1 {
                assert(false);
            }
        }
        None
    }

    /// Stores a template under a key; an existing entry under the same key is
    /// replaced.
    pub fn register(&mut self, key: &str, prototype: DocumentKind)
        ensures
            ({
                let j = registry_index(old(self).prototypes@, key@);
                let before = old(self).prototypes@;
                let after = final(self).prototypes@;
                if j == -1 {
                    after.len() == before.len() + 1 && after.subrange(0, before.len() as int)
                        == before && after.last().0@ == key@ && after.last().1 == prototype
                } else {
                    after == before.update(j, (after[j].0, prototype)) && after[j].0@ == key@
                }
            }),
    {
        match self.find_entry(key) {
            Some(i) => {
                self.prototypes[i] = (key.to_owned(), prototype);
                proof {
                    assert(self.prototypes@ =~= old(self).prototypes@.update(
                        i as int,
                        self.prototypes@[i as int],
                    ));
                }
            },
            None => {
                self.prototypes.push((key.to_owned(), prototype));
                proof {
                    assert(self.prototypes@.subrange(0, old(self).prototypes@.len() as int)
                        =~= old(self).prototypes@);
                }
            },
        }
    }

    /// A copy of the template under a key, if one is registered.
    pub fn clone_prototype(&self, key: &str) -> (r: Option<DocumentKind>)
        ensures
            ({
                let j = registry_index(self.prototypes@, key@);
                match r {
                    Some(d) => j >= 0 && same_document(d, self.prototypes@[j].1),
                    None => j == -1,
                }
            }),
    {
        match self.find_entry(key) {
            Some(i) => Some(self.prototypes[i].1.clone_object()),
            None => None,
        }
    }

    /// The registered keys, in registration order.
    pub fn list_prototypes(&self) -> (r: Vec<String>)
        ensures
            r@.map_values(|s: String| s@) == registry_keys(self.prototypes@),
    {
        let mut out: Vec<String> = Vec::new();
        let mut i: usize = 0;
        while i < self.prototypes.len()
            invariant
                i <= self.prototypes@.len(),
                out@.len() == i,
                forall|k: int| 0 <= k < i ==> (#[trigger] out@[k])@ == self.prototypes@[k].0@,
            decreases self.prototypes@.len() - i,
        {
            out.push(self.prototypes[i].0.clone());
            i += 1;
        }
        proof {
            assert(out@.map_values(|s: String| s@) =~= registry_keys(self.prototypes@));
        }
        out
    }

    /// The description of the template under a key, if one is registered.
    pub fn get_prototype_info(&self, key: &str) -> (r: Option<String>)
        ensures
            ({
                let j = registry_index(self.prototypes@, key@);
                match r {
                    Some(s) => j >= 0 && s@ == document_info(self.prototypes@[j].1),
                    None => j == -1,
                }
            }),
    {
        match self.find_entry(key) {
            Some(i) => Some(self.prototypes[i].1.get_info()),
            None => None,
        }
    }
}

impl Default for DocumentRegistry {
    /// A registry holding the three standard templates.
    fn default() -> (r: DocumentRegistry)
        ensures
            r.prototypes@.len() == 3,
            r.prototypes@[0].0@ == "basic_resume"@,
            r.prototypes@[1].0@ == "basic_cover_letter"@,
            r.prototypes@[2].0@ == "basic_project"@,
    {
        let mut registry = DocumentRegistry::new();
        registry.prototypes.push((
            "basic_resume".to_owned(),
            DocumentKind::Resume(
                Resume::new("[Your Name]", "[your.email@example.com]", "[Your Phone]"),
            ),
        ));
        registry.prototypes.push((
            "basic_cover_letter".to_owned(),
            DocumentKind::CoverLetter(
                CoverLetter::new("Hiring Manager", "[Company Name]", "[Position Title]"),
            ),
        ));
        registry.prototypes.push((
            "basic_project".to_owned(),
            DocumentKind::Project(PortfolioProject::new("[Project Name]", "[Project Description]")),
        ));
        registry
    }
}

/// Ready-made resumes for three professions.
pub struct DocumentPrototypeFactory;

impl DocumentPrototypeFactory {
    /// The stock technology resume.
    pub fn create_tech_resume() -> (r: Resume)
        ensures
            r@.name == "Tech Professional"@,
            r@.experience_years == 5,
            r@.skills =~= seq!["Rust"@, "Python"@, "JavaScript"@, "Docker"@],
            r@.education =~= seq!["Computer Science Degree"@],
            r@.previous_jobs =~= seq![
                "Software Engineer at TechCorp"@,
                "Junior Developer at StartupXYZ"@,
            ],
    {
        let mut resume = Resume::new("Tech Professional", "tech@example.com", "123-456-7890");
        resume.set_experience(5);
        resume.add_skill("Rust");
        resume.add_skill("Python");
        resume.add_skill("JavaScript");
        resume.add_skill("Docker");
        resume.add_education("Computer Science Degree");
        resume.add_job("Software Engineer at TechCorp");
        resume.add_job("Junior Developer at StartupXYZ");
        resume
    }

    /// The stock management resume.
    pub fn create_management_resume() -> (r: Resume)
        ensures
            r@.name == "Manager Professional"@,
            r@.experience_years == 8,
            r@.skills =~= seq![
                "Leadership"@,
                "Project Management"@,
                "Team Building"@,
                "Strategic Planning"@,
            ],
            r@.education =~= seq!["MBA"@, "Business Administration Degree"@],
            r@.previous_jobs =~= seq!["Senior Manager at BigCorp"@, "Team Lead at MidCorp"@],
    {
        let mut resume = Resume::new(
            "Manager Professional",
            "manager@example.com",
            "123-456-7891",
        );
        resume.set_experience(8);
        resume.add_skill("Leadership");
        resume.add_skill("Project Management");
        resume.add_skill("Team Building");
        resume.add_skill("Strategic Planning");
        resume.add_education("MBA");
        resume.add_education("Business Administration Degree");
        resume.add_job("Senior Manager at BigCorp");
        resume.add_job("Team Lead at MidCorp");
        resume
    }

    /// The stock design resume.
    pub fn create_designer_resume() -> (r: Resume)
        ensures
            r@.name == "Creative Designer"@,
            r@.experience_years == 4,
            r@.skills =~= seq!["Adobe Creative Suite"@, "UI/UX Design"@, "Figma"@, "Sketch"@],
            r@.education =~= seq!["Design Degree"@],
            r@.previous_jobs =~= seq![
                "UI Designer at DesignStudio"@,
                "Graphic Designer at Agency"@,
            ],
    {
        let mut resume = Resume::new("Creative Designer", "designer@example.com", "123-456-7892");
        resume.set_experience(4);
        resume.add_skill("Adobe Creative Suite");
        resume.add_skill("UI/UX Design");
        resume.add_skill("Figma");
        resume.add_skill("Sketch");
        resume.add_education("Design Degree");
        resume.add_job("UI Designer at DesignStudio");
        resume.add_job("Graphic Designer at Agency");
        resume
    }
}

} // verus!
