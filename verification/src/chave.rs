use vstd::prelude::*;

verus! {

/// Uma chave gsettings suprimível: par (esquema, nome), conhecido em tempo
/// de compilação.
#[derive(Debug, Clone, Copy, PartialEq, Eq, Hash)]
pub struct Chave {
    pub esquema: &'static str,
    pub nome: &'static str,
}

impl View for Chave {
    type V = (Seq<char>, Seq<char>);

    open spec fn view(&self) -> (Seq<char>, Seq<char>) {
        (self.esquema@, self.nome@)
    }
}

impl Chave {
    pub fn nova(esquema: &'static str, nome: &'static str) -> (r: Self)
        ensures
            r.esquema == esquema,
            r.nome == nome,
    {
        Self { esquema, nome }
    }
}

/// Atalhos do compositor suprimidos durante o bloqueio, como pares
/// (esquema, nome), na ordem em que são lidos e desligados.
pub open spec fn lista_de_chaves_suprimidas() -> Seq<(Seq<char>, Seq<char>)> {
    seq![
        ("org.gnome.desktop.wm.keybindings"@, "switch-applications"@),
        ("org.gnome.desktop.wm.keybindings"@, "switch-applications-backward"@),
        ("org.gnome.desktop.wm.keybindings"@, "switch-windows"@),
        ("org.gnome.desktop.wm.keybindings"@, "switch-windows-backward"@),
        ("org.gnome.desktop.wm.keybindings"@, "switch-group"@),
        ("org.gnome.desktop.wm.keybindings"@, "switch-group-backward"@),
        ("org.gnome.desktop.wm.keybindings"@, "switch-panels"@),
        ("org.gnome.desktop.wm.keybindings"@, "switch-panels-backward"@),
        ("org.gnome.desktop.wm.keybindings"@, "minimize"@),
        ("org.gnome.desktop.wm.keybindings"@, "close"@),
        ("org.gnome.desktop.wm.keybindings"@, "show-desktop"@),
        ("org.gnome.desktop.wm.keybindings"@, "panel-run-dialog"@),
        ("org.gnome.desktop.wm.keybindings"@, "switch-to-workspace-1"@),
        ("org.gnome.desktop.wm.keybindings"@, "switch-to-workspace-2"@),
        ("org.gnome.desktop.wm.keybindings"@, "switch-to-workspace-3"@),
        ("org.gnome.desktop.wm.keybindings"@, "switch-to-workspace-4"@),
        ("org.gnome.desktop.wm.keybindings"@, "switch-to-workspace-left"@),
        ("org.gnome.desktop.wm.keybindings"@, "switch-to-workspace-right"@),
        ("org.gnome.shell.keybindings"@, "toggle-overview"@),
        ("org.gnome.shell.keybindings"@, "toggle-application-view"@),
        ("org.gnome.shell.keybindings"@, "toggle-message-tray"@),
        ("org.gnome.shell.keybindings"@, "switch-to-application-1"@),
        ("org.gnome.shell.keybindings"@, "switch-to-application-2"@),
        ("org.gnome.shell.keybindings"@, "switch-to-application-3"@),
        ("org.gnome.mutter"@, "overlay-key"@),
        ("org.gnome.mutter.wayland.keybindings"@, "switch-to-session-1"@),
        ("org.gnome.mutter.wayland.keybindings"@, "switch-to-session-2"@)
    ]
}

/// Comprimentos do esquema e do nome, segundo e último caracteres do nome:
/// bastam para distinguir as chaves suprimidas umas das outras.
spec fn assinatura(par: (Seq<char>, Seq<char>)) -> (int, int, char, char) {
    (par.0.len() as int, par.1.len() as int, par.1[1], par.1[par.1.len() - 1])
}

/// A posição, na lista das chaves suprimidas, da chave com essa assinatura.
spec fn posicao(a: (int, int, char, char)) -> int {
    if a == (32int, 19int, 'w', 's') {
        0
    } else if a == (32int, 28int, 'w', 'd') {
        1
    } else if a == (32int, 14int, 'w', 's') {
        2
    } else if a == (32int, 23int, 'w', 'd') {
        3
    } else if a == (32int, 12int, 'w', 'p') {
        4
    } else if a == (32int, 21int, 'w', 'd') {
        5
    } else if a == (32int, 13int, 'w', 's') {
        6
    } else if a == (32int, 22int, 'w', 'd') {
        7
    } else if a == (32int, 8int, 'i', 'e') {
        8
    } else if a == (32int, 5int, 'l', 'e') {
        9
    } else if a == (32int, 12int, 'h', 'p') {
        10
    } else if a == (32int, 16int, 'a', 'g') {
        11
    } else if a == (32int, 21int, 'w', '1') {
        12
    } else if a == (32int, 21int, 'w', '2') {
        13
    } else if a == (32int, 21int, 'w', '3') {
        14
    } else if a == (32int, 21int, 'w', '4') {
        15
    } else if a == (32int, 24int, 'w', 't') {
        16
    } else if a == (32int, 25int, 'w', 't') {
        17
    } else if a == (27int, 15int, 'o', 'w') {
        18
    } else if a == (27int, 23int, 'o', 'w') {
        19
    } else if a == (27int, 19int, 'o', 'y') {
        20
    } else if a == (27int, 23int, 'w', '1') {
        21
    } else if a == (27int, 23int, 'w', '2') {
        22
    } else if a == (27int, 23int, 'w', '3') {
        23
    } else if a == (16int, 11int, 'v', 'y') {
        24
    } else if a == (36int, 19int, 'w', '1') {
        25
    } else if a == (36int, 19int, 'w', '2') {
        26
    } else {
        -1
    }
}

proof fn posicao_da_chave(i: int)
    requires
        0 <= i < lista_de_chaves_suprimidas().len(),
    ensures
        posicao(assinatura(lista_de_chaves_suprimidas()[i])) == i,
{
    reveal_strlit("close");
    reveal_strlit("minimize");
    reveal_strlit("org.gnome.desktop.wm.keybindings");
    reveal_strlit("org.gnome.mutter");
    reveal_strlit("org.gnome.mutter.wayland.keybindings");
    reveal_strlit("org.gnome.shell.keybindings");
    reveal_strlit("overlay-key");
    reveal_strlit("panel-run-dialog");
    reveal_strlit("show-desktop");
    reveal_strlit("switch-applications");
    reveal_strlit("switch-applications-backward");
    reveal_strlit("switch-group");
    reveal_strlit("switch-group-backward");
    reveal_strlit("switch-panels");
    reveal_strlit("switch-panels-backward");
    reveal_strlit("switch-to-application-1");
    reveal_strlit("switch-to-application-2");
    reveal_strlit("switch-to-application-3");
    reveal_strlit("switch-to-session-1");
    reveal_strlit("switch-to-session-2");
    reveal_strlit("switch-to-workspace-1");
    reveal_strlit("switch-to-workspace-2");
    reveal_strlit("switch-to-workspace-3");
    reveal_strlit("switch-to-workspace-4");
    reveal_strlit("switch-to-workspace-left");
    reveal_strlit("switch-to-workspace-right");
    reveal_strlit("switch-windows");
    reveal_strlit("switch-windows-backward");
    reveal_strlit("toggle-application-view");
    reveal_strlit("toggle-message-tray");
    reveal_strlit("toggle-overview");
    let lista = lista_de_chaves_suprimidas();
    if i == 0 {
        assert(assinatura(lista[0]) == (32int, 19int, 'w', 's'));
    } else if i == 1 {
        assert(assinatura(lista[1]) == (32int, 28int, 'w', 'd'));
    } else if i == 2 {
        assert(assinatura(lista[2]) == (32int, 14int, 'w', 's'));
    } else if i == 3 {
        assert(assinatura(lista[3]) == (32int, 23int, 'w', 'd'));
    } else if i == 4 {
        assert(assinatura(lista[4]) == (32int, 12int, 'w', 'p'));
    } else if i == 5 {
        assert(assinatura(lista[5]) == (32int, 21int, 'w', 'd'));
    } else if i == 6 {
        assert(assinatura(lista[6]) == (32int, 13int, 'w', 's'));
    } else if i == 7 {
        assert(assinatura(lista[7]) == (32int, 22int, 'w', 'd'));
    } else if i == 8 {
        assert(assinatura(lista[8]) == (32int, 8int, 'i', 'e'));
    } else if i == 9 {
        assert(assinatura(lista[9]) == (32int, 5int, 'l', 'e'));
    } else if i == 10 {
        assert(assinatura(lista[10]) == (32int, 12int, 'h', 'p'));
    } else if i == 11 {
        assert(assinatura(lista[11]) == (32int, 16int, 'a', 'g'));
    } else if i == 12 {
        assert(assinatura(lista[12]) == (32int, 21int, 'w', '1'));
    } else if i == 13 {
        assert(assinatura(lista[13]) == (32int, 21int, 'w', '2'));
    } else if i == 14 {
        assert(assinatura(lista[14]) == (32int, 21int, 'w', '3'));
    } else if i == 15 {
        assert(assinatura(lista[15]) == (32int, 21int, 'w', '4'));
    } else if i == 16 {
        assert(assinatura(lista[16]) == (32int, 24int, 'w', 't'));
    } else if i == 17 {
        assert(assinatura(lista[17]) == (32int, 25int, 'w', 't'));
    } else if i == 18 {
        assert(assinatura(lista[18]) == (27int, 15int, 'o', 'w'));
    } else if i == 19 {
        assert(assinatura(lista[19]) == (27int, 23int, 'o', 'w'));
    } else if i == 20 {
        assert(assinatura(lista[20]) == (27int, 19int, 'o', 'y'));
    } else if i == 21 {
        assert(assinatura(lista[21]) == (27int, 23int, 'w', '1'));
    } else if i == 22 {
        assert(assinatura(lista[22]) == (27int, 23int, 'w', '2'));
    } else if i == 23 {
        assert(assinatura(lista[23]) == (27int, 23int, 'w', '3'));
    } else if i == 24 {
        assert(assinatura(lista[24]) == (16int, 11int, 'v', 'y'));
    } else if i == 25 {
        assert(assinatura(lista[25]) == (36int, 19int, 'w', '1'));
    } else if i == 26 {
        assert(assinatura(lista[26]) == (36int, 19int, 'w', '2'));
    }
}

/// Nenhum par (esquema, nome) aparece duas vezes na lista das chaves suprimidas.
pub proof fn chaves_suprimidas_sem_par_repetido()
    ensures
        lista_de_chaves_suprimidas().no_duplicates(),
{
    let lista = lista_de_chaves_suprimidas();
    assert forall|i: int, j: int| 0 <= i < lista.len() && 0 <= j < lista.len() && i != j implies lista[i] != lista[j] by {
        posicao_da_chave(i);
        posicao_da_chave(j);
    }
}

/// As chaves suprimidas são exatamente estes atalhos do GNOME, nesta ordem,
/// cada nome no esquema em que o GNOME o declara: troca de aplicativo e de
/// janela (Alt+Tab e afins), minimizar, fechar, mostrar a área de trabalho,
/// o diálogo de executar e as áreas de trabalho no gerenciador de janelas; a
/// visão geral, a grade de aplicativos, a bandeja e os atalhos de aplicativo
/// no shell; a tecla Super no mutter; e a troca de sessão no mutter Wayland.
pub proof fn chaves_suprimidas_sao_os_atalhos_do_gnome()
    ensures
        lista_de_chaves_suprimidas() == seq![
            ("org.gnome.desktop.wm.keybindings"@, "switch-applications"@),
            ("org.gnome.desktop.wm.keybindings"@, "switch-applications-backward"@),
            ("org.gnome.desktop.wm.keybindings"@, "switch-windows"@),
            ("org.gnome.desktop.wm.keybindings"@, "switch-windows-backward"@),
            ("org.gnome.desktop.wm.keybindings"@, "switch-group"@),
            ("org.gnome.desktop.wm.keybindings"@, "switch-group-backward"@),
            ("org.gnome.desktop.wm.keybindings"@, "switch-panels"@),
            ("org.gnome.desktop.wm.keybindings"@, "switch-panels-backward"@),
            ("org.gnome.desktop.wm.keybindings"@, "minimize"@),
            ("org.gnome.desktop.wm.keybindings"@, "close"@),
            ("org.gnome.desktop.wm.keybindings"@, "show-desktop"@),
            ("org.gnome.desktop.wm.keybindings"@, "panel-run-dialog"@),
            ("org.gnome.desktop.wm.keybindings"@, "switch-to-workspace-1"@),
            ("org.gnome.desktop.wm.keybindings"@, "switch-to-workspace-2"@),
            ("org.gnome.desktop.wm.keybindings"@, "switch-to-workspace-3"@),
            ("org.gnome.desktop.wm.keybindings"@, "switch-to-workspace-4"@),
            ("org.gnome.desktop.wm.keybindings"@, "switch-to-workspace-left"@),
            ("org.gnome.desktop.wm.keybindings"@, "switch-to-workspace-right"@),
            ("org.gnome.shell.keybindings"@, "toggle-overview"@),
            ("org.gnome.shell.keybindings"@, "toggle-application-view"@),
            ("org.gnome.shell.keybindings"@, "toggle-message-tray"@),
            ("org.gnome.shell.keybindings"@, "switch-to-application-1"@),
            ("org.gnome.shell.keybindings"@, "switch-to-application-2"@),
            ("org.gnome.shell.keybindings"@, "switch-to-application-3"@),
            ("org.gnome.mutter"@, "overlay-key"@),
            ("org.gnome.mutter.wayland.keybindings"@, "switch-to-session-1"@),
            ("org.gnome.mutter.wayland.keybindings"@, "switch-to-session-2"@)
        ],
        lista_de_chaves_suprimidas().len() == 27,
        forall|i: int| 0 <= i <= 17 ==> (#[trigger] lista_de_chaves_suprimidas()[i]).0 == "org.gnome.desktop.wm.keybindings"@,
        forall|i: int| 18 <= i <= 23 ==> (#[trigger] lista_de_chaves_suprimidas()[i]).0 == "org.gnome.shell.keybindings"@,
        forall|i: int| 24 <= i <= 24 ==> (#[trigger] lista_de_chaves_suprimidas()[i]).0 == "org.gnome.mutter"@,
        forall|i: int| 25 <= i <= 26 ==> (#[trigger] lista_de_chaves_suprimidas()[i]).0 == "org.gnome.mutter.wayland.keybindings"@,
{
}

/// A lista das chaves suprimidas durante o bloqueio.
pub fn chaves_suprimidas() -> (r: Vec<Chave>)
    ensures
        r@.map_values(|c: Chave| c@) == lista_de_chaves_suprimidas(),
{
    let mut r: Vec<Chave> = Vec::new();
    r.push(Chave::nova("org.gnome.desktop.wm.keybindings", "switch-applications"));
    r.push(Chave::nova("org.gnome.desktop.wm.keybindings", "switch-applications-backward"));
    r.push(Chave::nova("org.gnome.desktop.wm.keybindings", "switch-windows"));
    r.push(Chave::nova("org.gnome.desktop.wm.keybindings", "switch-windows-backward"));
    r.push(Chave::nova("org.gnome.desktop.wm.keybindings", "switch-group"));
    r.push(Chave::nova("org.gnome.desktop.wm.keybindings", "switch-group-backward"));
    r.push(Chave::nova("org.gnome.desktop.wm.keybindings", "switch-panels"));
    r.push(Chave::nova("org.gnome.desktop.wm.keybindings", "switch-panels-backward"));
    r.push(Chave::nova("org.gnome.desktop.wm.keybindings", "minimize"));
    r.push(Chave::nova("org.gnome.desktop.wm.keybindings", "close"));
    r.push(Chave::nova("org.gnome.desktop.wm.keybindings", "show-desktop"));
    r.push(Chave::nova("org.gnome.desktop.wm.keybindings", "panel-run-dialog"));
    r.push(Chave::nova("org.gnome.desktop.wm.keybindings", "switch-to-workspace-1"));
    r.push(Chave::nova("org.gnome.desktop.wm.keybindings", "switch-to-workspace-2"));
    r.push(Chave::nova("org.gnome.desktop.wm.keybindings", "switch-to-workspace-3"));
    r.push(Chave::nova("org.gnome.desktop.wm.keybindings", "switch-to-workspace-4"));
    r.push(Chave::nova("org.gnome.desktop.wm.keybindings", "switch-to-workspace-left"));
    r.push(Chave::nova("org.gnome.desktop.wm.keybindings", "switch-to-workspace-right"));
    r.push(Chave::nova("org.gnome.shell.keybindings", "toggle-overview"));
    r.push(Chave::nova("org.gnome.shell.keybindings", "toggle-application-view"));
    r.push(Chave::nova("org.gnome.shell.keybindings", "toggle-message-tray"));
    r.push(Chave::nova("org.gnome.shell.keybindings", "switch-to-application-1"));
    r.push(Chave::nova("org.gnome.shell.keybindings", "switch-to-application-2"));
    r.push(Chave::nova("org.gnome.shell.keybindings", "switch-to-application-3"));
    r.push(Chave::nova("org.gnome.mutter", "overlay-key"));
    r.push(Chave::nova("org.gnome.mutter.wayland.keybindings", "switch-to-session-1"));
    r.push(Chave::nova("org.gnome.mutter.wayland.keybindings", "switch-to-session-2"));
    assert(r@.map_values(|c: Chave| c@) =~= lista_de_chaves_suprimidas());
    r
}

} // verus!
